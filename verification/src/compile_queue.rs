//! Decisions about compile requests: their times, the estimate of how long a
//! compilation takes, and what is sent to the render service.
use vstd::prelude::*;
use crate::model::records::TexCompQueue;
use crate::model::project_resp::{CompileResp, LatestCompile};

verus! {

/// The compile status of a request whose compilation has finished.
pub const COMPILE_STATUS_COMPILED: i32 = 2;

/// How long a request may stay in the compiling state, in minutes, before the
/// sweep marks it expired.
pub const COMPILE_EXPIRE_MINUTES: i64 = 10;

/// The largest positive duration among `durations`, 0 when there is none.
pub open spec fn max_positive_duration(durations: Seq<Option<i64>>) -> i64
    decreases durations.len(),
{
    if durations.len() == 0 {
        0
    } else {
        let rest = max_positive_duration(durations.drop_last());
        match durations.last() {
            Some(c) => if c > 0 && c > rest {
                c
            } else {
                rest
            },
            None => rest,
        }
    }
}

/// The estimate is 0 or one of the positive durations, and no positive
/// duration exceeds it.
pub proof fn lemma_max_positive_duration(durations: Seq<Option<i64>>)
    ensures
        max_positive_duration(durations) >= 0,
        forall|i: int|
            0 <= i < durations.len() && (#[trigger] durations[i]) is Some && durations[i]->0 > 0
                ==> durations[i]->0 <= max_positive_duration(durations),
        max_positive_duration(durations) > 0 ==> exists|i: int|
            0 <= i < durations.len() && #[trigger] durations[i] == Some(
                max_positive_duration(durations),
            ),
    decreases durations.len(),
{
    if durations.len() > 0 {
        let init = durations.drop_last();
        lemma_max_positive_duration(init);
        assert forall|i: int|
            0 <= i < durations.len() && (#[trigger] durations[i]) is Some && durations[i]->0
                > 0 implies durations[i]->0 <= max_positive_duration(durations) by {
            if i < durations.len() - 1 {
                assert(durations[i] == init[i]);
            }
        }
        if max_positive_duration(durations) > 0 {
            if max_positive_duration(durations) == max_positive_duration(init) {
                let k = choose|k: int|
                    0 <= k < init.len() && #[trigger] init[k] == Some(max_positive_duration(init));
                assert(durations[k] == init[k]);
            } else {
                assert(durations[durations.len() - 1] == Some(max_positive_duration(durations)));
            }
        }
    }
}

/// The expected compile time of a project from the durations of its last
/// successful compilations: the largest positive one, 0 when there is none.
pub fn estimated_compile_time(durations: &Vec<Option<i64>>) -> (r: i64)
    ensures
        r == max_positive_duration(durations@),
        r >= 0,
        forall|i: int|
            0 <= i < durations@.len() && (#[trigger] durations@[i]) is Some && durations@[i]->0
                > 0 ==> durations@[i]->0 <= r,
        r > 0 ==> exists|i: int| 0 <= i < durations@.len() && #[trigger] durations@[i] == Some(r),
{
    let n = durations.len();
    let mut best: i64 = 0;
    let mut i: usize = 0;
    while i < n
        invariant
            n == durations@.len(),
            i <= n,
            best == max_positive_duration(durations@.subrange(0, i as int)),
        decreases n - i,
    {
        let ghost prefix = durations@.subrange(0, i as int);
        assert(durations@.subrange(0, i + 1).drop_last() =~= prefix);
        match durations[i] {
            Some(c) => {
                if c > 0 && c > best {
                    best = c;
                }
            },
            None => {},
        }
        i = i + 1;
    }
    assert(durations@.subrange(0, n as int) =~= durations@);
    proof {
        lemma_max_positive_duration(durations@);
    }
    best
}

/// The completion time recorded when a status update arrives: the current
/// time for a finished compilation, 0 otherwise.
pub fn compile_complete_time(comp_status: i32, now_ms: i64) -> (r: i64)
    ensures
        r == (if comp_status == COMPILE_STATUS_COMPILED {
            now_ms
        } else {
            0
        }),
{
    match comp_status {
        2 => now_ms,
        _ => 0,
    }
}

/// The start time recorded for a request: the one reported when positive,
/// else the current time.
pub fn queue_start_time(requested: i64, now_ms: i64) -> (r: i64)
    ensures
        r == (if requested > 0 {
            requested
        } else {
            now_ms
        }),
{
    if requested > 0 {
        requested
    } else {
        now_ms
    }
}

/// `chrono::TimeDelta::minutes(m).num_milliseconds()`: `m` minutes are
/// `m * 60_000` milliseconds. The bound keeps `m * 60` seconds within the
/// range `TimeDelta::minutes` accepts without panicking.
#[verifier::external_body]
fn minutes_in_millis(minutes: i64) -> (r: i64)
    requires
        0 <= minutes <= i64::MAX / 60_000,
    ensures
        r == minutes * 60_000,
{
    chrono::TimeDelta::minutes(minutes).num_milliseconds()
}

/// The creation time before which a request still compiling counts as
/// expired: the current time plus the expiry period.
pub fn expired_queue_cutoff(now_ms: i64) -> (r: i64)
    requires
        now_ms <= i64::MAX - COMPILE_EXPIRE_MINUTES * 60_000,
    ensures
        r == now_ms + COMPILE_EXPIRE_MINUTES * 60_000,
{
    now_ms + minutes_in_millis(COMPILE_EXPIRE_MINUTES)
}

/// The ids of the given requests, in order.
pub fn queue_ids(queues: &Vec<TexCompQueue>) -> (r: Vec<i64>)
    ensures
        r@.len() == queues@.len(),
        forall|i: int| 0 <= i < r@.len() ==> r@[i] == (#[trigger] queues@[i]).id,
{
    let mut ids: Vec<i64> = Vec::new();
    let mut i: usize = 0;
    while i < queues.len()
        invariant
            i <= queues@.len(),
            ids@.len() == i,
            forall|k: int| 0 <= k < i ==> ids@[k] == (#[trigger] queues@[k]).id,
        decreases queues@.len() - i,
    {
        ids.push(queues[i].id);
        i = i + 1;
    }
    ids
}

/// The version the newest PDF is addressed by: that of the newest successful
/// request, else `fallback` (the current time).
pub fn latest_version_no(newest: Option<&TexCompQueue>, fallback: String) -> (r: String)
    ensures
        r@ == match newest {
            Some(q) => q.version_no@,
            None => fallback@,
        },
{
    match newest {
        Some(q) => q.version_no.clone(),
        None => fallback,
    }
}

/// The name of the newest PDF of a main file: its name without extension,
/// `.pdf?v=` and the version.
pub fn latest_pdf_name(main_file_stem: &str, version_no: &str) -> (r: String)
    ensures
        r@ == main_file_stem@ + ".pdf?v="@ + version_no@,
{
    let mut name = String::from_str(main_file_stem);
    name.append(".pdf?v=");
    name.append(version_no);
    name
}

/// The name of the compile log of a main file: its name without extension
/// and `.log`.
pub fn compile_log_file_name(main_file_stem: &str) -> (r: String)
    ensures
        r@ == main_file_stem@ + ".log"@,
{
    let mut name = String::from_str(main_file_stem);
    name.append(".log");
    name
}

/// What is sent to the render service to compile one file of a project.
pub struct ProjCompileReq {
    pub file_path: String,
    pub out_path: String,
    pub req_time: i64,
    pub project_id: String,
}

/// The directory under which the render service keeps projects.
pub open spec fn render_project_root() -> Seq<char> {
    "/opt/data/project/"@
}

/// The compile request for `file_name` of project `proj_id`, made at `now_ms`.
pub fn get_proj_compile_req(proj_id: &String, file_name: &String, now_ms: i64) -> (r:
    ProjCompileReq)
    ensures
        r.file_path@ == render_project_root() + proj_id@ + "/"@ + file_name@,
        r.out_path@ == render_project_root() + proj_id@,
        r.req_time == now_ms,
        r.project_id@ == proj_id@,
{
    let mut out_path = String::from_str("/opt/data/project/");
    out_path.append(proj_id.as_str());
    let mut file_path = String::from_str("/opt/data/project/");
    file_path.append(proj_id.as_str());
    file_path.append("/");
    file_path.append(file_name.as_str());
    ProjCompileReq { file_path, out_path, req_time: now_ms, project_id: proj_id.clone() }
}

/// The default queue entry: every number 0, every text empty, no duration.
pub open spec fn empty_queue(q: TexCompQueue) -> bool {
    &&& q.id == 0
    &&& q.project_id@.len() == 0
    &&& q.user_id == 0
    &&& q.created_time == 0
    &&& q.updated_time == 0
    &&& q.comp_status == 0
    &&& q.comp_result == 0
    &&& q.start_time == 0
    &&& q.complete_time == 0
    &&& q.version_no@.len() == 0
    &&& q.compile_duration_ms is None
}

/// The message that ends a compile log followed in its file: sent only when
/// both the newest PDF and the cached queue entry could be read.
pub fn complete_end_response(latest: Option<LatestCompile>, queue: Option<TexCompQueue>) -> (r:
    Option<CompileResp>)
    ensures
        r is Some <==> (latest is Some && queue is Some),
        r matches Some(resp) ==> resp.comp == latest->0 && resp.queue == queue->0,
{
    match (latest, queue) {
        (Some(l), Some(q)) => Some(CompileResp::from_parts(l, q)),
        _ => None,
    }
}

/// The message that ends a relayed compile log: the newest PDF and the
/// cached queue entry, each replaced by an empty default when it could not
/// be read.
pub fn compile_end_response(latest: Option<LatestCompile>, queue: Option<TexCompQueue>) -> (r:
    CompileResp)
    ensures
        match latest {
            Some(l) => r.comp == l,
            None => r.comp.path@.len() == 0 && r.comp.project_id@.len() == 0,
        },
        match queue {
            Some(q) => r.queue == q,
            None => empty_queue(r.queue),
        },
{
    let comp = match latest {
        Some(l) => l,
        None => LatestCompile::default(),
    };
    let queue = match queue {
        Some(q) => q,
        None => TexCompQueue::default(),
    };
    CompileResp::from_parts(comp, queue)
}

/// The fields of the message that asks the render service to compile a
/// project, in the order they are sent.
pub fn compile_stream_fields(
    file_path: String,
    out_path: String,
    project_id: String,
    req_time: String,
    qid: String,
    version_no: String,
    log_file_name: String,
    proj_created_time: String,
) -> (r: Vec<(&'static str, String)>)
    ensures
        r@.len() == 8,
        r@[0].0@ == "file_path"@ && r@[0].1 == file_path,
        r@[1].0@ == "out_path"@ && r@[1].1 == out_path,
        r@[2].0@ == "project_id"@ && r@[2].1 == project_id,
        r@[3].0@ == "req_time"@ && r@[3].1 == req_time,
        r@[4].0@ == "qid"@ && r@[4].1 == qid,
        r@[5].0@ == "version_no"@ && r@[5].1 == version_no,
        r@[6].0@ == "log_file_name"@ && r@[6].1 == log_file_name,
        r@[7].0@ == "proj_created_time"@ && r@[7].1 == proj_created_time,
{
    let mut fields: Vec<(&'static str, String)> = Vec::new();
    fields.push(("file_path", file_path));
    fields.push(("out_path", out_path));
    fields.push(("project_id", project_id));
    fields.push(("req_time", req_time));
    fields.push(("qid", qid));
    fields.push(("version_no", version_no));
    fields.push(("log_file_name", log_file_name));
    fields.push(("proj_created_time", proj_created_time));
    fields
}

} // verus!
