//! Size limits enforced on decode.
//!
//! An honest sensor truncates to fit (use [`truncate_utf8`]) and sets the
//! matching `*_truncated` flag; the validator rejects anything over a limit.
use vstd::prelude::*;
use vstd::utf8::*;
use vstd::string::*;

verus! {

/// `process.cmd_line`, in UTF-8 bytes.
pub const CMD_LINE_MAX: usize = 65536;
/// Any path or name: file paths/names, registry key paths, registry value names.
pub const PATH_MAX: usize = 32768;
/// `reg_value.data`, in bytes.
pub const REG_DATA_MAX: usize = 4096;
/// `query.hostname`, in UTF-8 bytes.
pub const DNS_HOSTNAME_MAX: usize = 1024;
/// Each `answers[].data`, in UTF-8 bytes.
pub const DNS_ANSWER_DATA_MAX: usize = 1024;
/// Number of `answers[]` entries.
pub const DNS_ANSWERS_MAX: usize = 64;
/// `user.uid` (a SID string; the longest real SID is under 200 characters).
pub const USER_UID_MAX: usize = 256;
/// `user.name` (`DOMAIN\user`).
pub const USER_NAME_MAX: usize = 1024;
/// `file.signature.signer`.
pub const SIGNER_MAX: usize = 1024;
/// A whole encoded event, checked before protobuf decoding.
pub const EVENT_MAX: usize = 262144;

/// Truncates `s` to at most `max_bytes` UTF-8 bytes without splitting a
/// character. Returns the kept prefix and whether anything was cut.
pub fn truncate_utf8(s: &str, max_bytes: usize) -> (r: (&str, bool))
    ensures
        s.spec_bytes().len() <= max_bytes ==> r.0@ == s@ && !r.1,
        s.spec_bytes().len() > max_bytes ==> {
            &&& r.1
            &&& r.0.spec_bytes() == s.spec_bytes().subrange(0, r.0.spec_bytes().len() as int)
            &&& r.0.spec_bytes().len() <= max_bytes
            &&& is_char_boundary(s.spec_bytes(), r.0.spec_bytes().len() as int)
            &&& forall|k: int|
                r.0.spec_bytes().len() < k <= max_bytes ==> !is_char_boundary(s.spec_bytes(), k)
        },
{
    broadcast use encode_utf8_valid_utf8;
    if s.as_bytes().len() <= max_bytes {
        return (s, false);
    }
    let mut end = max_bytes;
    while !s.is_char_boundary(end)
        invariant
            end <= max_bytes,
            max_bytes < s.spec_bytes().len(),
            valid_utf8(s.spec_bytes()),
            forall|k: int| end < k <= max_bytes ==> !is_char_boundary(s.spec_bytes(), k),
        decreases end,
    {
        assert(end != 0);
        end -= 1;
    }
    let (head, _) = s.split_at(end);
    (head, true)
}

/// The limits are: command line 64 KiB, paths and names 32 KiB, registry
/// data 4 KiB, DNS hostname and each answer's data 1 KiB, at most 64 DNS
/// answers, user uid 256 bytes, user name and signer 1 KiB, and a whole
/// encoded event 256 KiB.
pub proof fn lemma_limit_values()
    ensures
        CMD_LINE_MAX == 64 * 1024,
        PATH_MAX == 32 * 1024,
        REG_DATA_MAX == 4 * 1024,
        DNS_HOSTNAME_MAX == 1024,
        DNS_ANSWER_DATA_MAX == 1024,
        DNS_ANSWERS_MAX == 64,
        USER_UID_MAX == 256,
        USER_NAME_MAX == 1024,
        SIGNER_MAX == 1024,
        EVENT_MAX == 256 * 1024,
{
}

} // verus!
