//! Opening a transfer: the resumable upload slot's acknowledged ranges,
//! the Content-Length validation for URL sources, the media-kind gate
//! for chat sources, and the task creation both flows end in — under the
//! cancellation registry's lock, with no row written on any refusal.

use vstd::prelude::*;
use vstd::string::StrSliceExecFns;

use crate::cancel::CancelRegistry;
use crate::error::{EngineError, ProtocolError, StoreError, TransferError};
use crate::store::{InsertTask, TaskStore};
use crate::strutil::str_has_prefix;
use crate::tasks::CmdType;

verus! {

/// One byte range the storage backend has not received yet; an absent
/// end means "to the end of the file".
#[derive(Clone, Copy, Debug, PartialEq, Eq, Structural)]
pub struct ExpectedRange {
    pub start: u64,
    pub end: Option<u64>,
}

/// What the backend reported about a freshly opened upload slot: the
/// byte ranges it still expects, ordered, non-overlapping, ascending.
pub struct UploadSessionMeta {
    pub next_expected_ranges: Vec<ExpectedRange>,
}

/// The offset a task starts sending at: the start of the first range
/// the backend still expects, or zero when it expects everything. For a
/// freshly opened slot this is zero; the backend's word is trusted when
/// it says otherwise, and the task-creation flows refuse it if it lies
/// beyond the source's total length.
pub open spec fn spec_seed(ranges: Seq<ExpectedRange>) -> u64 {
    if ranges.len() == 0 {
        0
    } else {
        ranges[0].start
    }
}

impl UploadSessionMeta {
    /// Session-slot validity: ranges ascend and do not overlap.
    pub open spec fn wf(self) -> bool {
        forall|i: int, j: int|
            0 <= i < j < self.next_expected_ranges@.len()
                ==> (#[trigger] self.next_expected_ranges@[i]).end is Some
                && self.next_expected_ranges@[i].end->Some_0 < (
            #[trigger] self.next_expected_ranges@[j]).start
    }

    /// The offset the task's `current_length` is seeded from.
    pub fn seed_current_length(&self) -> (r: u64)
        ensures
            r == spec_seed(self.next_expected_ranges@),
    {
        if self.next_expected_ranges.len() == 0 {
            0
        } else {
            self.next_expected_ranges[0].start
        }
    }
}

/// Whether the character is a decimal digit.
pub open spec fn is_digit(c: char) -> bool {
    48 <= c as int <= 57
}

/// The digit's value.
pub open spec fn digit_val(c: char) -> int {
    c as int - 48
}

/// Whether the text is one or more decimal digits and nothing else.
pub open spec fn all_digits(s: Seq<char>) -> bool {
    forall|i: int| 0 <= i < s.len() ==> is_digit(#[trigger] s[i])
}

/// The number the digit string denotes.
pub open spec fn decimal_value(s: Seq<char>) -> int
    decreases s.len(),
{
    if s.len() == 0 {
        0
    } else {
        decimal_value(s.drop_last()) * 10 + digit_val(s.last())
    }
}

/// A digit string denotes a non-negative number.
pub proof fn lemma_decimal_nonneg(s: Seq<char>)
    requires
        all_digits(s),
    ensures
        decimal_value(s) >= 0,
    decreases s.len(),
{
    if s.len() > 0 {
        assert(all_digits(s.drop_last()));
        lemma_decimal_nonneg(s.drop_last());
    }
}

/// A digit string denotes at least as much as any of its prefixes.
pub proof fn lemma_decimal_prefix_le(s: Seq<char>, n: int)
    requires
        all_digits(s),
        0 <= n <= s.len(),
    ensures
        decimal_value(s.subrange(0, n)) <= decimal_value(s),
    decreases s.len() - n,
{
    if n == s.len() {
        assert(s.subrange(0, n) =~= s);
    } else {
        let p = s.subrange(0, n);
        let q = s.subrange(0, n + 1);
        assert(q.drop_last() =~= p);
        assert(all_digits(p));
        lemma_decimal_nonneg(p);
        assert(decimal_value(q) == decimal_value(p) * 10 + digit_val(q.last()));
        lemma_decimal_prefix_le(s, n + 1);
    }
}

/// Parses a Content-Length header value: one or more decimal digits
/// denoting a byte count that fits the machine's range. Anything else —
/// empty, a stray character, a value past the range — is `None`.
pub fn parse_content_length(s: &str) -> (r: Option<u64>)
    ensures
        match r {
            Some(v) => s@.len() > 0 && all_digits(s@) && v as int == decimal_value(s@)
                && decimal_value(s@) <= u64::MAX,
            None => s@.len() == 0 || !all_digits(s@) || decimal_value(s@) > u64::MAX,
        },
{
    let n = s.unicode_len();
    if n == 0 {
        return None;
    }
    let mut acc: u64 = 0;
    let mut i: usize = 0;
    while i < n
        invariant
            n == s@.len(),
            i <= n,
            all_digits(s@.subrange(0, i as int)),
            acc as int == decimal_value(s@.subrange(0, i as int)),
        decreases n - i,
    {
        let c = s.get_char(i);
        let cv = c as u32;
        if cv < 48 || cv > 57 {
            return None;
        }
        let d: u64 = (cv - 48) as u64;
        proof {
            assert(s@.subrange(0, i as int + 1).drop_last() =~= s@.subrange(0, i as int));
            assert(s@.subrange(0, i as int + 1).last() == s@[i as int]);
        }
        if acc > (u64::MAX - d) / 10 {
            proof {
                assert(acc as int * 10 + d as int > u64::MAX) by {
                    let q = (u64::MAX - d) as int / 10;
                    assert(acc as int >= q + 1);
                    assert(q * 10 + 9 >= (u64::MAX - d) as int);
                };
                assert(decimal_value(s@.subrange(0, i as int + 1)) > u64::MAX);
                if all_digits(s@) {
                    lemma_decimal_prefix_le(s@, i as int + 1);
                }
            }
            return None;
        }
        proof {
            assert(acc as int * 10 + d as int <= u64::MAX) by {
                let q = (u64::MAX - d) as int / 10;
                assert(acc as int <= q);
                assert(q * 10 <= (u64::MAX - d) as int);
            };
        }
        acc = acc * 10 + d;
        i += 1;
    }
    proof {
        assert(s@.subrange(0, n as int) =~= s@);
    }
    Some(acc)
}

/// Whether the address is an http or https URL.
pub open spec fn spec_is_http_url(s: Seq<char>) -> bool {
    ("http://"@.len() <= s.len() && s.subrange(0, "http://"@.len() as int) == "http://"@) || (
    "https://"@.len() <= s.len() && s.subrange(0, "https://"@.len() as int) == "https://"@)
}

/// Executable form of `spec_is_http_url`.
pub fn is_http_url(s: &str) -> (r: bool)
    ensures
        r == spec_is_http_url(s@),
{
    str_has_prefix(s, "http://") || str_has_prefix(s, "https://")
}

/// The kind of chat media a file task may be sourced from, resolved
/// once at task-creation time.
#[derive(Clone, Copy, Debug, PartialEq, Eq, Structural)]
pub enum MediaKind {
    Photo,
    Document,
    Sticker,
    Other,
}

/// Whether tasks may be created for this media kind.
pub open spec fn media_supported(kind: MediaKind) -> bool {
    kind == MediaKind::Photo || kind == MediaKind::Document || kind == MediaKind::Sticker
}

/// Creates the task row for a URL source, under the registry's lock.
/// The URL must be http(s) and the HEAD response must carry a
/// well-formed Content-Length — on any refusal no row is written and no
/// handle is registered. The task starts at the backend-seeded offset.
pub fn insert_url_task(
    reg: &mut CancelRegistry,
    store: &mut TaskStore,
    url: String,
    filename: String,
    root_path: String,
    upload_url: String,
    content_length: Option<&String>,
    meta: &UploadSessionMeta,
    chat_id: i64,
    chat_bot_hex: String,
    chat_user_hex: String,
    message_id: i32,
) -> (r: Result<i64, EngineError>)
    requires
        old(reg).wf(),
        old(store).wf(),
        old(store).spec_next_id() < i64::MAX,
        old(reg).handles_below(old(store).spec_next_id()),
        meta.wf(),
    ensures
        final(reg).wf(),
        final(store).wf(),
        final(reg).handles_below(final(store).spec_next_id()),
        r.is_ok() <==> spec_is_http_url(url@) && (content_length matches Some(h) && h@.len() > 0
            && all_digits(h@) && decimal_value(h@) <= i64::MAX && spec_seed(
            meta.next_expected_ranges@,
        ) as int <= decimal_value(h@)) && !old(reg).chat_cancelling(chat_id),
        r is Err ==> *final(store) == *old(store) && *final(reg) == *old(reg),
        !spec_is_http_url(url@) ==> r == Err::<i64, EngineError>(
            EngineError::Transfer(TransferError::NotHttpUrl),
        ),
        spec_is_http_url(url@) && content_length is None ==> r == Err::<i64, EngineError>(
            EngineError::Transfer(TransferError::MissingContentLength),
        ),
        spec_is_http_url(url@) ==> (content_length matches Some(h) && (h@.len() == 0
            || !all_digits(h@) || decimal_value(h@) > i64::MAX) ==> r == Err::<i64, EngineError>(
            EngineError::Transfer(TransferError::MalformedContentLength),
        )),
        match r {
            Ok(id) => {
                &&& spec_is_http_url(url@)
                &&& !old(reg).chat_cancelling(chat_id)
                &&& id == old(store).spec_next_id()
                &&& (content_length matches Some(h) && all_digits(h@) && h@.len() > 0
                    && spec_seed(meta.next_expected_ranges@) <= decimal_value(h@) <= i64::MAX
                    && final(store).rows() == old(store).rows().push(
                    (crate::tasks::Model {
                        id,
                        cmd_type: CmdType::Url,
                        filename,
                        root_path,
                        url: Some(url),
                        upload_url,
                        current_length: spec_seed(meta.next_expected_ranges@) as i64,
                        total_length: decimal_value(h@) as i64,
                        chat_bot_hex,
                        chat_user_hex,
                        chat_origin_hex: None,
                        message_id,
                        message_id_forward: None,
                        message_id_origin: None,
                        status: crate::tasks::TaskStatus::Waiting,
                    }),
                ))
                &&& final(reg).has_handle(id)
            },
            Err(e) => {
                &&& (e == EngineError::Store(StoreError::ScopeCancelling) ==> old(
                    reg,
                ).chat_cancelling(chat_id))
                &&& (e == EngineError::Protocol(ProtocolError::UnexpectedResponse)
                    || e == EngineError::Store(StoreError::ScopeCancelling) || e matches
                    EngineError::Transfer(_))
            },
        },
{
    if !is_http_url(url.as_str()) {
        return Err(EngineError::Transfer(TransferError::NotHttpUrl));
    }
    let total: u64 = match content_length {
        Some(h) => {
            match parse_content_length(h.as_str()) {
                Some(v) => v,
                None => {
                    return Err(EngineError::Transfer(TransferError::MalformedContentLength));
                },
            }
        },
        None => {
            return Err(EngineError::Transfer(TransferError::MissingContentLength));
        },
    };
    if total > i64::MAX as u64 {
        return Err(EngineError::Transfer(TransferError::MalformedContentLength));
    }
    let seed = meta.seed_current_length();
    if seed > total {
        return Err(EngineError::Protocol(ProtocolError::UnexpectedResponse));
    }
    let t = InsertTask {
        cmd_type: CmdType::Url,
        filename,
        root_path,
        url: Some(url),
        upload_url,
        current_length: seed as i64,
        total_length: total as i64,
        chat_id,
        chat_bot_hex,
        chat_user_hex,
        chat_origin_hex: None,
        message_id,
        message_id_forward: None,
        message_id_origin: None,
    };
    let ghost t0 = t;
    match reg.guarded_insert(store, t) {
        Ok(id) => {
            proof {
                assert(t0.to_model(id) == (crate::tasks::Model {
                    id,
                    cmd_type: CmdType::Url,
                    filename,
                    root_path,
                    url: Some(url),
                    upload_url,
                    current_length: spec_seed(meta.next_expected_ranges@) as i64,
                    total_length: decimal_value(content_length->Some_0@) as i64,
                    chat_bot_hex,
                    chat_user_hex,
                    chat_origin_hex: None,
                    message_id,
                    message_id_forward: None,
                    message_id_origin: None,
                    status: crate::tasks::TaskStatus::Waiting,
                }));
                assert(reg.handles()[old(reg).handles().len() as int].task_id == id);
                assert(reg.has_handle(id));
            }
            Ok(id)
        },
        Err(e) => Err(EngineError::Store(e)),
    }
}

/// Creates the task row for a chat-media source, under the registry's
/// lock. Only photo, document and sticker media are accepted. When the
/// source message was forwarded or part of an album, the placeholder
/// message the edge created carries the progress reports, and the
/// original message id is kept aside.
pub fn insert_file_task(
    reg: &mut CancelRegistry,
    store: &mut TaskStore,
    kind: MediaKind,
    filename: String,
    root_path: String,
    upload_url: String,
    total_length: i64,
    meta: &UploadSessionMeta,
    chat_id: i64,
    chat_bot_hex: String,
    chat_user_hex: String,
    message_id: i32,
    placeholder_message_id: Option<i32>,
) -> (r: Result<i64, EngineError>)
    requires
        old(reg).wf(),
        old(store).wf(),
        old(store).spec_next_id() < i64::MAX,
        old(reg).handles_below(old(store).spec_next_id()),
        meta.wf(),
        total_length >= 0,
    ensures
        final(reg).wf(),
        final(store).wf(),
        final(reg).handles_below(final(store).spec_next_id()),
        r.is_ok() <==> media_supported(kind) && spec_seed(meta.next_expected_ranges@) as int
            <= total_length as int && !old(reg).chat_cancelling(chat_id),
        r is Err ==> *final(store) == *old(store) && *final(reg) == *old(reg),
        !media_supported(kind) ==> r == Err::<i64, EngineError>(
            EngineError::Transfer(TransferError::UnsupportedMediaKind),
        ),
        match r {
            Ok(id) => {
                &&& media_supported(kind)
                &&& !old(reg).chat_cancelling(chat_id)
                &&& id == old(store).spec_next_id()
                &&& spec_seed(meta.next_expected_ranges@) <= total_length
                &&& final(store).rows() == old(store).rows().push(
                    (crate::tasks::Model {
                    id,
                    cmd_type: CmdType::File,
                    filename,
                    root_path,
                    url: None,
                    upload_url,
                    current_length: spec_seed(meta.next_expected_ranges@) as i64,
                    total_length,
                    chat_bot_hex,
                    chat_user_hex,
                    chat_origin_hex: None,
                    message_id: match placeholder_message_id {
                        Some(p) => p,
                        None => message_id,
                    },
                    message_id_forward: match placeholder_message_id {
                        Some(_) => Some(message_id),
                        None => None,
                    },
                    message_id_origin: None,
                    status: crate::tasks::TaskStatus::Waiting,
                }),
                )
                &&& final(reg).has_handle(id)
            },
            Err(e) => {
                &&& (e == EngineError::Store(StoreError::ScopeCancelling) ==> old(
                    reg,
                ).chat_cancelling(chat_id))
                &&& (e == EngineError::Protocol(ProtocolError::UnexpectedResponse)
                    || e == EngineError::Store(StoreError::ScopeCancelling) || e
                    == EngineError::Transfer(TransferError::UnsupportedMediaKind))
            },
        },
{
    let supported = matches!(kind, MediaKind::Photo) || matches!(kind, MediaKind::Document)
        || matches!(kind, MediaKind::Sticker);
    if !supported {
        return Err(EngineError::Transfer(TransferError::UnsupportedMediaKind));
    }
    let seed = meta.seed_current_length();
    if seed > i64::MAX as u64 || seed as i64 > total_length {
        return Err(EngineError::Protocol(ProtocolError::UnexpectedResponse));
    }
    let (report_id, forward_id) = match placeholder_message_id {
        Some(p) => (p, Some(message_id)),
        None => (message_id, None),
    };
    let t = InsertTask {
        cmd_type: CmdType::File,
        filename,
        root_path,
        url: None,
        upload_url,
        current_length: seed as i64,
        total_length,
        chat_id,
        chat_bot_hex,
        chat_user_hex,
        chat_origin_hex: None,
        message_id: report_id,
        message_id_forward: forward_id,
        message_id_origin: None,
    };
    let ghost t0 = t;
    match reg.guarded_insert(store, t) {
        Ok(id) => {
            proof {
                assert(t0.to_model(id) == (crate::tasks::Model {
                    id,
                    cmd_type: CmdType::File,
                    filename,
                    root_path,
                    url: None,
                    upload_url,
                    current_length: spec_seed(meta.next_expected_ranges@) as i64,
                    total_length,
                    chat_bot_hex,
                    chat_user_hex,
                    chat_origin_hex: None,
                    message_id: match placeholder_message_id {
                        Some(p) => p,
                        None => message_id,
                    },
                    message_id_forward: match placeholder_message_id {
                        Some(_) => Some(message_id),
                        None => None,
                    },
                    message_id_origin: None,
                    status: crate::tasks::TaskStatus::Waiting,
                }));
                assert(reg.handles()[old(reg).handles().len() as int].task_id == id);
                assert(reg.has_handle(id));
            }
            Ok(id)
        },
        Err(e) => Err(EngineError::Store(e)),
    }
}

} // verus!
