//! The persistent transfer-task row, its source kind and its status state
//! machine, together with the wire mapping that stores the two variant
//! columns as lowercase words.

use vstd::prelude::*;
use vstd::string::StringExecFns;

use crate::strutil::str_eq;

verus! {

/// Kind of source a transfer task draws its bytes from.
#[derive(Clone, Copy, Debug, PartialEq, Eq, Structural)]
pub enum CmdType {
    File,
    Link,
    Url,
}

/// Lifecycle stage of a transfer task.
#[derive(Clone, Copy, Debug, PartialEq, Eq, Structural)]
pub enum TaskStatus {
    Waiting,
    Fetched,
    Started,
    Completed,
    Failed,
}

/// One persisted transfer-task row.
#[derive(Debug)]
pub struct Model {
    pub id: i64,
    pub cmd_type: CmdType,
    pub filename: String,
    pub root_path: String,
    pub url: Option<String>,
    pub upload_url: String,
    pub current_length: i64,
    pub total_length: i64,
    pub chat_bot_hex: String,
    pub chat_user_hex: String,
    pub chat_origin_hex: Option<String>,
    pub message_id: i32,
    pub message_id_forward: Option<i32>,
    pub message_id_origin: Option<i32>,
    pub status: TaskStatus,
}

impl Model {
    /// Row validity: byte offsets are ordered, and a source URL is
    /// present exactly on Url-sourced tasks.
    pub open spec fn wf(self) -> bool {
        &&& 0 <= self.current_length <= self.total_length
        &&& (self.url is Some <==> self.cmd_type == CmdType::Url)
    }
}

/// Position of a status on the forward chain
/// Waiting, Fetched, Started, Completed. `Failed` stands apart and
/// is reachable from any non-terminal status.
pub open spec fn status_rank(s: TaskStatus) -> int {
    match s {
        TaskStatus::Waiting => 0,
        TaskStatus::Fetched => 1,
        TaskStatus::Started => 2,
        TaskStatus::Completed => 3,
        TaskStatus::Failed => 4,
    }
}

/// Completed and Failed are terminal: no further mutation is permitted.
pub open spec fn is_terminal(s: TaskStatus) -> bool {
    s == TaskStatus::Completed || s == TaskStatus::Failed
}

/// The status state machine: from a non-terminal status a task either
/// moves strictly forward along the chain or fails.
pub open spec fn can_step(from: TaskStatus, to: TaskStatus) -> bool {
    &&& !is_terminal(from)
    &&& (to == TaskStatus::Failed || (to != TaskStatus::Failed && status_rank(from)
        < status_rank(to)))
}

/// A status history whose every adjacent pair is a legal step.
pub open spec fn valid_history(h: Seq<TaskStatus>) -> bool {
    forall|i: int| 0 <= i && i + 1 < h.len() ==> #[trigger] can_step(h[i], h[i + 1])
}

/// Along a legal history, every status before a non-failed one sits
/// strictly earlier on the chain and is itself not Failed.
pub proof fn lemma_history_ranks(h: Seq<TaskStatus>, i: int, j: int)
    requires
        valid_history(h),
        0 <= i < j < h.len(),
        h[j] != TaskStatus::Failed,
    ensures
        status_rank(h[i]) < status_rank(h[j]),
        h[i] != TaskStatus::Failed,
    decreases j - i,
{
    let k = j - 1;
    assert(can_step(h[k], h[k + 1]));
    if i < j - 1 {
        lemma_history_ranks(h, i, j - 1);
    }
}

/// A task's status sequence is a (possibly partial) subsequence of
/// Waiting, Fetched, Started, Completed, or leaves that chain only by
/// ending in Failed: along any legal history the non-failed entries
/// climb the chain strictly, and a terminal status is never followed by
/// anything.
pub proof fn lemma_history_is_chain_or_ends_failed(h: Seq<TaskStatus>)
    requires
        valid_history(h),
    ensures
        forall|i: int, j: int|
            0 <= i < j < h.len() && h[j] != TaskStatus::Failed ==> status_rank(h[i]) < status_rank(
                h[j],
            ) && h[i] != TaskStatus::Failed,
        forall|i: int| 0 <= i && i + 1 < h.len() ==> !is_terminal(h[i]),
{
    assert forall|i: int, j: int|
        0 <= i < j < h.len() && h[j] != TaskStatus::Failed implies status_rank(h[i]) < status_rank(
        h[j],
    ) && h[i] != TaskStatus::Failed by {
        lemma_history_ranks(h, i, j);
    }
    assert forall|i: int| 0 <= i && i + 1 < h.len() implies !is_terminal(h[i]) by {
        assert(can_step(h[i], h[i + 1]));
    }
}

/// The lowercase word a source kind is stored as.
pub open spec fn cmd_type_text(c: CmdType) -> Seq<char> {
    match c {
        CmdType::File => "file"@,
        CmdType::Link => "link"@,
        CmdType::Url => "url"@,
    }
}

/// The lowercase word a status is stored as.
pub open spec fn status_text(s: TaskStatus) -> Seq<char> {
    match s {
        TaskStatus::Waiting => "waiting"@,
        TaskStatus::Fetched => "fetched"@,
        TaskStatus::Started => "started"@,
        TaskStatus::Completed => "completed"@,
        TaskStatus::Failed => "failed"@,
    }
}

impl CmdType {
    /// Serializes the source kind for storage.
    pub fn to_text(&self) -> (r: String)
        ensures
            r@ == cmd_type_text(*self),
    {
        match self {
            CmdType::File => String::from_str("file"),
            CmdType::Link => String::from_str("link"),
            CmdType::Url => String::from_str("url"),
        }
    }

    /// Parses a stored source-kind word; `None` on any other text.
    pub fn from_text(s: &str) -> (r: Option<CmdType>)
        ensures
            match r {
                Some(c) => s@ == cmd_type_text(c),
                None => forall|c: CmdType| s@ != cmd_type_text(c),
            },
    {
        if str_eq(s, "file") {
            Some(CmdType::File)
        } else if str_eq(s, "link") {
            Some(CmdType::Link)
        } else if str_eq(s, "url") {
            Some(CmdType::Url)
        } else {
            proof {
                assert forall|c: CmdType| s@ != cmd_type_text(c) by {
                    match c {
                        CmdType::File => assert(s@ != "file"@),
                        CmdType::Link => assert(s@ != "link"@),
                        CmdType::Url => assert(s@ != "url"@),
                    }
                }
            }
            None
        }
    }
}

impl TaskStatus {
    /// Serializes the status for storage.
    pub fn to_text(&self) -> (r: String)
        ensures
            r@ == status_text(*self),
    {
        match self {
            TaskStatus::Waiting => String::from_str("waiting"),
            TaskStatus::Fetched => String::from_str("fetched"),
            TaskStatus::Started => String::from_str("started"),
            TaskStatus::Completed => String::from_str("completed"),
            TaskStatus::Failed => String::from_str("failed"),
        }
    }

    /// Parses a stored status word; `None` on any other text.
    pub fn from_text(s: &str) -> (r: Option<TaskStatus>)
        ensures
            match r {
                Some(st) => s@ == status_text(st),
                None => forall|st: TaskStatus| s@ != status_text(st),
            },
    {
        if str_eq(s, "waiting") {
            Some(TaskStatus::Waiting)
        } else if str_eq(s, "fetched") {
            Some(TaskStatus::Fetched)
        } else if str_eq(s, "started") {
            Some(TaskStatus::Started)
        } else if str_eq(s, "completed") {
            Some(TaskStatus::Completed)
        } else if str_eq(s, "failed") {
            Some(TaskStatus::Failed)
        } else {
            proof {
                assert forall|st: TaskStatus| s@ != status_text(st) by {
                    match st {
                        TaskStatus::Waiting => assert(s@ != "waiting"@),
                        TaskStatus::Fetched => assert(s@ != "fetched"@),
                        TaskStatus::Started => assert(s@ != "started"@),
                        TaskStatus::Completed => assert(s@ != "completed"@),
                        TaskStatus::Failed => assert(s@ != "failed"@),
                    }
                }
            }
            None
        }
    }
}

/// The wire mapping is bidirectional: parsing a serialized kind gives
/// the kind back.
pub proof fn lemma_cmd_type_text_injective(a: CmdType, b: CmdType)
    requires
        cmd_type_text(a) == cmd_type_text(b),
    ensures
        a == b,
{
    reveal_strlit("file");
    reveal_strlit("link");
    reveal_strlit("url");
    assert("file"@.len() == 4 && "file"@[0] == 'f');
    assert("link"@.len() == 4 && "link"@[0] == 'l');
    assert("url"@.len() == 3);
}

/// The wire mapping is bidirectional: parsing a serialized status gives
/// the status back.
pub proof fn lemma_status_text_injective(a: TaskStatus, b: TaskStatus)
    requires
        status_text(a) == status_text(b),
    ensures
        a == b,
{
    reveal_strlit("waiting");
    reveal_strlit("fetched");
    reveal_strlit("started");
    reveal_strlit("completed");
    reveal_strlit("failed");
    assert("waiting"@.len() == 7 && "waiting"@[0] == 'w');
    assert("fetched"@.len() == 7 && "fetched"@[0] == 'f');
    assert("started"@.len() == 7 && "started"@[0] == 's');
    assert("completed"@.len() == 9);
    assert("failed"@.len() == 6);
}

} // verus!
