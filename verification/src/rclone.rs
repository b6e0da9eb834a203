//! What the synchronisation engine answers, read into plain values.
//!
//! The engine is reached by remote procedure calls that this crate does not
//! make itself. A call's outcome is handed in as the engine's output text:
//! `Ok` when the engine reported success, `Err` when it reported a failure.

use crate::errors::{ErrorView, GalionError};
use crate::json::{
    json_compact, json_decode, json_decode_error, json_quoted, parse_json, quote_json, Json,
};
use crate::text::{decimal, decimal_string, joined, text_or_empty};
use vstd::prelude::*;
use vstd::string::*;

verus! {

/// A call of the engine: the method and its input, a JSON object as text.
#[derive(Debug, PartialEq, Eq)]
pub struct RpcRequest {
    /// Name of the method.
    pub method: String,
    /// Input of the method.
    pub input: String,
}

/// The mathematical value of an [`RpcRequest`].
pub struct RequestView {
    pub method: Seq<char>,
    pub input: Seq<char>,
}

impl View for RpcRequest {
    type V = RequestView;

    open spec fn view(&self) -> RequestView {
        RequestView { method: self.method@, input: self.input@ }
    }
}

/// A call without input.
pub open spec fn plain_request(method: Seq<char>) -> RequestView {
    RequestView { method, input: "{}"@ }
}

/// A call whose input has one member, a string.
pub open spec fn text_request(method: Seq<char>, key: Seq<char>, value: Seq<char>) -> RequestView {
    RequestView { method, input: "{"@ + json_quoted(key) + ":"@ + json_quoted(value) + "}"@ }
}

/// The call that asks for the status of a job.
pub open spec fn spec_job_status_request(job_id: u64) -> RequestView {
    RequestView { method: "job/status"@, input: "{\"jobid\":"@ + decimal(job_id as nat) + "}"@ }
}

/// The call that asks to synchronise a source to a destination.
pub open spec fn spec_sync_request(src: Seq<char>, dest: Seq<char>, is_async: bool) -> RequestView {
    RequestView {
        method: "sync/sync"@,
        input: "{\"_async\":"@ + (if is_async {
            "true"@
        } else {
            "false"@
        }) + ",\"dstFs\":"@ + json_quoted(dest) + ",\"srcFs\":"@ + json_quoted(src) + "}"@,
    }
}

/// The outcome of a call, as mathematical values.
pub type ReplyView = Result<Seq<char>, Seq<char>>;

/// The mathematical value of the outcome of a call.
pub open spec fn reply_view(reply: Result<String, String>) -> ReplyView {
    match reply {
        Ok(output) => Ok(output@),
        Err(output) => Err(output@),
    }
}

/// The error raised for an output that is no JSON document.
pub open spec fn not_json(output: Seq<char>) -> ErrorView {
    ErrorView { message: json_decode_error(output), source: Some(json_decode_error(output)) }
}

/// The document of a successful call; the engine's output as an error for a
/// failed one.
pub open spec fn spec_decode(reply: ReplyView) -> Result<Json, ErrorView> {
    match reply {
        Err(output) => Err(ErrorView::plain(output)),
        Ok(output) => match json_decode(output) {
            Some(value) => Ok(value),
            None => Err(not_json(output)),
        },
    }
}

/// The error that a document of the engine describes: its member `error`
/// where that is a string, otherwise the whole document written compactly.
pub open spec fn spec_error_of(value: Json, compact: Seq<char>) -> ErrorView {
    match value.spec_get("error"@) {
        Some(Json::Text(message)) => ErrorView::plain(message@),
        _ => ErrorView::plain(compact),
    }
}

/// The outcome of a request to synchronise: the document of a successful
/// call, the error that the engine's document describes for a failed one.
pub open spec fn spec_sync(reply: ReplyView) -> Result<Json, ErrorView> {
    match reply {
        Ok(_) => spec_decode(reply),
        Err(output) => match json_decode(output) {
            Some(value) => Err(spec_error_of(value, text_or_empty(json_compact(output)))),
            None => Err(not_json(output)),
        },
    }
}

/// The identifier that a reply to a request to synchronise gives the job.
pub open spec fn spec_job_id(value: Json) -> Option<u64> {
    match value.spec_get("jobid"@) {
        Some(member) => member.spec_as_u64(),
        None => None,
    }
}

/// The strings among the items, in order.
pub open spec fn texts_in(items: Seq<Json>) -> Seq<Seq<char>>
    decreases items.len(),
{
    if items.len() == 0 {
        Seq::empty()
    } else {
        match items.last() {
            Json::Text(text) => texts_in(items.drop_last()).push(text@),
            _ => texts_in(items.drop_last()),
        }
    }
}

/// The unsigned integers that the items are; `None` where one is none.
pub open spec fn numbers_in(items: Seq<Json>) -> Option<Seq<u64>>
    decreases items.len(),
{
    if items.len() == 0 {
        Some(Seq::empty())
    } else {
        match (numbers_in(items.drop_last()), items.last().spec_as_u64()) {
            (Some(front), Some(last)) => Some(front.push(last)),
            _ => None,
        }
    }
}

/// The names of the remotes that a document lists: the strings of its
/// member `remotes`, none where that is missing or no array. A document that
/// is no object is refused.
pub open spec fn spec_remote_names(value: Json) -> Result<Seq<Seq<char>>, ErrorView> {
    match value {
        Json::Object(_) => match value.spec_get("remotes"@) {
            Some(Json::Array(items)) => Ok(texts_in(items@)),
            _ => Ok(Seq::empty()),
        },
        _ => Err(ErrorView::plain("Bad response - no remotes"@)),
    }
}

/// The remote of a configuration: the member `remote` of the document,
/// where it is a string.
pub open spec fn spec_remote_target(value: Json) -> Option<Seq<char>> {
    match value.spec_get("remote"@) {
        Some(member) => member.spec_as_str(),
        None => None,
    }
}

/// The list of numbers under `key`; the error names the member that is
/// missing or is no list of unsigned integers.
pub open spec fn spec_number_list(value: Json, key: Seq<char>) -> Result<Seq<u64>, ErrorView> {
    match value.spec_get(key) {
        Some(Json::Array(items)) => match numbers_in(items@) {
            Some(numbers) => Ok(numbers),
            None => Err(ErrorView::plain("invalid job list: "@ + key)),
        },
        _ => Err(ErrorView::plain("invalid job list: "@ + key)),
    }
}

/// The jobs that the engine knows.
#[derive(Debug, PartialEq, Eq)]
pub struct RcJobList {
    /// Identifiers of all jobs.
    pub job_ids: Vec<u64>,
    /// Identifiers of the running jobs.
    pub running_ids: Vec<u64>,
    /// Identifiers of the finished jobs.
    pub finished_ids: Vec<u64>,
}

/// The mathematical value of an [`RcJobList`].
pub struct JobListView {
    pub job_ids: Seq<u64>,
    pub running_ids: Seq<u64>,
    pub finished_ids: Seq<u64>,
}

impl View for RcJobList {
    type V = JobListView;

    open spec fn view(&self) -> JobListView {
        JobListView {
            job_ids: self.job_ids@,
            running_ids: self.running_ids@,
            finished_ids: self.finished_ids@,
        }
    }
}

/// The job list of a document: its members `jobids`, `runningIds` and
/// `finishedIds`, each a list of unsigned integers. The first member that is
/// not gives the error.
pub open spec fn spec_job_list(value: Json) -> Result<JobListView, ErrorView> {
    match spec_number_list(value, "jobids"@) {
        Err(error) => Err(error),
        Ok(job_ids) => match spec_number_list(value, "runningIds"@) {
            Err(error) => Err(error),
            Ok(running_ids) => match spec_number_list(value, "finishedIds"@) {
                Err(error) => Err(error),
                Ok(finished_ids) => Ok(JobListView { job_ids, running_ids, finished_ids }),
            },
        },
    }
}

/// Whether the engine runs within this process.
#[derive(Debug, PartialEq, Eq)]
pub struct Rclone {
    librclone_is_initialized: bool,
}

impl Default for Rclone {
    fn default() -> (engine: Self)
        ensures
            !engine.is_initialized(),
    {
        Rclone { librclone_is_initialized: false }
    }
}

impl Rclone {
    /// Whether the engine has been started and not stopped since.
    pub closed spec fn is_initialized(&self) -> bool {
        self.librclone_is_initialized
    }

    /// An engine that has not been started.
    pub fn new() -> (engine: Self)
        ensures
            !engine.is_initialized(),
    {
        Rclone { librclone_is_initialized: false }
    }

    /// Notes that the engine is wanted. The result says whether it has to be
    /// started now: it has unless it runs already.
    pub fn initialize(&mut self) -> (start: bool)
        ensures
            start == !old(self).is_initialized(),
            final(self).is_initialized(),
    {
        let start = !self.librclone_is_initialized;
        self.librclone_is_initialized = true;
        start
    }

    /// Notes that the engine is no longer wanted. The result says whether it
    /// has to be stopped now: it has if it runs.
    pub fn finalize(&mut self) -> (stop: bool)
        ensures
            stop == old(self).is_initialized(),
            !final(self).is_initialized(),
    {
        let stop = self.librclone_is_initialized;
        self.librclone_is_initialized = false;
        stop
    }

    /// A call without input.
    pub fn plain_request(method: &str) -> (request: RpcRequest)
        ensures
            request@ == plain_request(method@),
    {
        RpcRequest { method: String::from_str(method), input: String::from_str("{}") }
    }

    /// A call whose input has one member, a string.
    pub fn text_request(method: &str, key: &str, value: &str) -> (request: RpcRequest)
        ensures
            request@ == text_request(method@, key@, value@),
    {
        let mut input = String::from_str("{");
        let quoted_key = quote_json(key);
        input.append(quoted_key.as_str());
        input.append(":");
        let quoted_value = quote_json(value);
        input.append(quoted_value.as_str());
        input.append("}");
        RpcRequest { method: String::from_str(method), input }
    }

    /// The call that asks for the engine's options.
    pub fn get_rpc_config_request() -> (request: RpcRequest)
        ensures
            request@ == plain_request("options/get"@),
    {
        Rclone::plain_request("options/get")
    }

    /// The call that sets options of the engine; `conf` is a JSON object as
    /// text.
    pub fn set_config_options_request(conf: &str) -> (request: RpcRequest)
        ensures
            request@ == (RequestView { method: "options/set"@, input: conf@ }),
    {
        RpcRequest { method: String::from_str("options/set"), input: String::from_str(conf) }
    }

    /// The call that tells the engine where its configuration file is.
    pub fn set_config_path_request(config_path: &str) -> (request: RpcRequest)
        ensures
            request@ == text_request("config/setpath"@, "path"@, config_path@),
    {
        Rclone::text_request("config/setpath", "path", config_path)
    }

    /// The call that asks for the engine's whole configuration.
    pub fn dump_config_request() -> (request: RpcRequest)
        ensures
            request@ == plain_request("config/dump"@),
    {
        Rclone::plain_request("config/dump")
    }

    /// The call that asks for the names of the engine's remotes.
    pub fn list_remotes_request() -> (request: RpcRequest)
        ensures
            request@ == plain_request("config/listremotes"@),
    {
        Rclone::plain_request("config/listremotes")
    }

    /// The call that asks for the engine's configuration of one remote.
    pub fn get_remote_request(remote_name: &str) -> (request: RpcRequest)
        ensures
            request@ == text_request("config/get"@, "name"@, remote_name@),
    {
        Rclone::text_request("config/get", "name", remote_name)
    }

    /// The call that asks to synchronise a source to a destination.
    pub fn sync_request(src_fs: &str, dest_fs: &str, is_async: bool) -> (request: RpcRequest)
        ensures
            request@ == spec_sync_request(src_fs@, dest_fs@, is_async),
    {
        let mut input = String::from_str("{\"_async\":");
        if is_async {
            input.append("true");
        } else {
            input.append("false");
        }
        input.append(",\"dstFs\":");
        let dest = quote_json(dest_fs);
        input.append(dest.as_str());
        input.append(",\"srcFs\":");
        let src = quote_json(src_fs);
        input.append(src.as_str());
        input.append("}");
        RpcRequest { method: String::from_str("sync/sync"), input }
    }

    /// The call that asks for the jobs that the engine knows.
    pub fn job_list_request() -> (request: RpcRequest)
        ensures
            request@ == plain_request("job/list"@),
    {
        Rclone::plain_request("job/list")
    }

    /// The call that asks for the status of a job.
    pub fn job_status_request(job_id: u64) -> (request: RpcRequest)
        ensures
            request@ == spec_job_status_request(job_id),
    {
        let mut input = String::from_str("{\"jobid\":");
        let number = decimal_string(job_id);
        input.append(number.as_str());
        input.append("}");
        RpcRequest { method: String::from_str("job/status"), input }
    }

    /// The document that a call returned.
    pub fn decode(reply: &Result<String, String>) -> (decoded: Result<Json, GalionError>)
        ensures
            match decoded {
                Ok(value) => spec_decode(reply_view(*reply)) == Ok::<Json, ErrorView>(value),
                Err(error) => spec_decode(reply_view(*reply)) == Err::<Json, ErrorView>(error@),
            },
    {
        match reply {
            Err(output) => Err(GalionError::new(output.as_str())),
            Ok(output) => match parse_json(output.as_str()) {
                Ok(read) => Ok(read.0),
                Err(message) => Err(GalionError::caused_by(message.as_str())),
            },
        }
    }

    /// The error that a document of the engine describes. `compact` is the
    /// document written compactly.
    pub fn error_of(value: &Json, compact: &str) -> (error: GalionError)
        ensures
            error@ == spec_error_of(*value, compact@),
    {
        match value.get("error") {
            Some(member) => match member.as_str() {
                Some(message) => GalionError::new(message),
                None => GalionError::new(compact),
            },
            None => GalionError::new(compact),
        }
    }

    /// The outcome of a request to synchronise.
    pub fn sync(reply: &Result<String, String>) -> (decoded: Result<Json, GalionError>)
        ensures
            match decoded {
                Ok(value) => spec_sync(reply_view(*reply)) == Ok::<Json, ErrorView>(value),
                Err(error) => spec_sync(reply_view(*reply)) == Err::<Json, ErrorView>(error@),
            },
    {
        match reply {
            Ok(_) => Rclone::decode(reply),
            Err(output) => match parse_json(output.as_str()) {
                Ok(read) => Err(Rclone::error_of(&read.0, read.1.as_str())),
                Err(message) => Err(GalionError::caused_by(message.as_str())),
            },
        }
    }

    /// The identifier that a reply to a request to synchronise gives the
    /// job.
    pub fn job_id_of(value: &Json) -> (job_id: Option<u64>)
        ensures
            job_id == spec_job_id(*value),
    {
        match value.get("jobid") {
            Some(member) => member.as_u64(),
            None => None,
        }
    }

    /// The names of the remotes that a document lists.
    pub fn remote_names(value: &Json) -> (names: Result<Vec<String>, GalionError>)
        ensures
            match names {
                Ok(found) => spec_remote_names(*value) == Ok::<Seq<Seq<char>>, ErrorView>(
                    found.deep_view(),
                ),
                Err(error) => spec_remote_names(*value) == Err::<Seq<Seq<char>>, ErrorView>(
                    error@,
                ),
            },
    {
        match value {
            Json::Object(_) => {
                let mut remotes: Vec<String> = Vec::new();
                assert(remotes.deep_view() =~= Seq::<Seq<char>>::empty());
                match value.get("remotes") {
                    Some(member) => match member {
                        Json::Array(items) => {
                            let mut i: usize = 0;
                            assert(items@.take(0) =~= Seq::<Json>::empty());
                            while i < items.len()
                                invariant
                                    i <= items.len(),
                                    remotes.deep_view() == texts_in(items@.take(i as int)),
                                decreases items.len() - i,
                            {
                                let ghost before = remotes.deep_view();
                                proof {
                                    let next = items@.take(i + 1);
                                    assert(next.drop_last() =~= items@.take(i as int));
                                    assert(next.last() == items@[i as int]);
                                }
                                match &items[i] {
                                    Json::Text(name) => {
                                        remotes.push(name.clone());
                                        assert(remotes.deep_view() =~= before.push(name@));
                                    },
                                    _ => {},
                                }
                                i = i + 1;
                            }
                            assert(items@.take(items.len() as int) =~= items@);
                            Ok(remotes)
                        },
                        _ => Ok(remotes),
                    },
                    None => Ok(remotes),
                }
            },
            _ => Err(GalionError::new("Bad response - no remotes")),
        }
    }

    /// The names of the remotes that the engine lists.
    pub fn list_remotes(reply: &Result<String, String>) -> (names: Result<Vec<String>, GalionError>)
        ensures
            match spec_decode(reply_view(*reply)) {
                Ok(value) => match names {
                    Ok(found) => spec_remote_names(value) == Ok::<Seq<Seq<char>>, ErrorView>(
                        found.deep_view(),
                    ),
                    Err(error) => spec_remote_names(value) == Err::<Seq<Seq<char>>, ErrorView>(
                        error@,
                    ),
                },
                Err(refused) => names matches Err(error) && error@ == refused,
            },
    {
        match Rclone::decode(reply) {
            Ok(value) => Rclone::remote_names(&value),
            Err(error) => Err(error),
        }
    }

    /// The engine's configuration of one remote, as the text it was sent in.
    pub fn get_remote(reply: &Result<String, String>) -> (text: Result<String, GalionError>)
        ensures
            match *reply {
                Ok(output) => text matches Ok(found) && found@ == output@,
                Err(output) => text matches Err(error) && error@ == ErrorView::plain(output@),
            },
    {
        match reply {
            Ok(output) => Ok(output.clone()),
            Err(output) => Err(GalionError::new(output.as_str())),
        }
    }

    /// The remote that a configuration names, if it names one.
    pub fn remote_target(value: &Json) -> (target: Option<String>)
        ensures
            match target {
                Some(found) => spec_remote_target(*value) == Some(found@),
                None => spec_remote_target(*value) is None,
            },
    {
        match value.get("remote") {
            Some(member) => match member.as_str() {
                Some(text) => Some(String::from_str(text)),
                None => None,
            },
            None => None,
        }
    }

    /// The list of numbers under `key` in a document.
    pub fn number_list(value: &Json, key: &str) -> (numbers: Result<Vec<u64>, GalionError>)
        ensures
            match numbers {
                Ok(found) => spec_number_list(*value, key@) == Ok::<Seq<u64>, ErrorView>(found@),
                Err(error) => spec_number_list(*value, key@) == Err::<Seq<u64>, ErrorView>(
                    error@,
                ),
            },
    {
        let refusal = joined("invalid job list: ", key);
        match value.get(key) {
            Some(member) => match member {
                Json::Array(items) => {
                    let mut numbers: Vec<u64> = Vec::new();
                    let mut i: usize = 0;
                    assert(items@.take(0) =~= Seq::<Json>::empty());
                    while i < items.len()
                        invariant
                            i <= items.len(),
                            refusal@ == "invalid job list: "@ + key@,
                            numbers_in(items@.take(i as int)) == Some(numbers@),
                            value.spec_get(key@) == Some(Json::Array(*items)),
                        decreases items.len() - i,
                    {
                        proof {
                            let next = items@.take(i + 1);
                            assert(next.drop_last() =~= items@.take(i as int));
                            assert(next.last() == items@[i as int]);
                        }
                        match items[i].as_u64() {
                            Some(number) => {
                                numbers.push(number);
                            },
                            None => {
                                proof {
                                    lemma_numbers_prefix(items@, i + 1);
                                }
                                return Err(GalionError::new(refusal.as_str()));
                            },
                        }
                        i = i + 1;
                    }
                    assert(items@.take(items.len() as int) =~= items@);
                    Ok(numbers)
                },
                _ => Err(GalionError::new(refusal.as_str())),
            },
            None => Err(GalionError::new(refusal.as_str())),
        }
    }

    /// The job list that a document holds.
    pub fn job_list_of(value: &Json) -> (list: Result<RcJobList, GalionError>)
        ensures
            match list {
                Ok(found) => spec_job_list(*value) == Ok::<JobListView, ErrorView>(found@),
                Err(error) => spec_job_list(*value) == Err::<JobListView, ErrorView>(error@),
            },
    {
        let job_ids = match Rclone::number_list(value, "jobids") {
            Ok(numbers) => numbers,
            Err(error) => {
                return Err(error);
            },
        };
        let running_ids = match Rclone::number_list(value, "runningIds") {
            Ok(numbers) => numbers,
            Err(error) => {
                return Err(error);
            },
        };
        let finished_ids = match Rclone::number_list(value, "finishedIds") {
            Ok(numbers) => numbers,
            Err(error) => {
                return Err(error);
            },
        };
        Ok(RcJobList { job_ids, running_ids, finished_ids })
    }

    /// The jobs that the engine lists.
    pub fn job_list(reply: &Result<String, String>) -> (list: Result<RcJobList, GalionError>)
        ensures
            match spec_decode(reply_view(*reply)) {
                Ok(value) => match list {
                    Ok(found) => spec_job_list(value) == Ok::<JobListView, ErrorView>(found@),
                    Err(error) => spec_job_list(value) == Err::<JobListView, ErrorView>(error@),
                },
                Err(refused) => list matches Err(error) && error@ == refused,
            },
    {
        match Rclone::decode(reply) {
            Ok(value) => Rclone::job_list_of(&value),
            Err(error) => Err(error),
        }
    }
}

/// Where a prefix of the items holds something that is no unsigned integer,
/// so do the items.
pub proof fn lemma_numbers_prefix(items: Seq<Json>, n: int)
    requires
        0 <= n <= items.len(),
        numbers_in(items.take(n)) is None,
    ensures
        numbers_in(items) is None,
    decreases items.len() - n,
{
    if n < items.len() {
        let next = items.take(n + 1);
        assert(next.drop_last() =~= items.take(n));
        lemma_numbers_prefix(items, n + 1);
    } else {
        assert(items.take(n) =~= items);
    }
}

} // verus!
