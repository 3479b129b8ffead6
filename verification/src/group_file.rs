//! Reading group membership from `/etc/group` text, for the permission
//! status shown in Settings. The system config file is read on purpose
//! rather than this process's live group list: right after `usermod` the
//! two disagree, and that is exactly the "log out and back in" case the
//! page explains. Reading the file is the caller's job.

use vstd::prelude::*;
use vstd::string::StringSliceAdditionalSpecFns;

verus! {

/// `\n`
pub const NEWLINE: u8 = 10;

/// `\r`
pub const CARRIAGE_RETURN: u8 = 13;

/// `:`
pub const FIELD_SEPARATOR: u8 = 58;

/// `,`
pub const MEMBER_SEPARATOR: u8 = 44;

/// The first index in `start..end` holding `b`, or `end`.
pub open spec fn index_of(bytes: Seq<u8>, start: int, end: int, b: u8) -> int
    decreases end - start,
{
    if start >= end {
        end
    } else if bytes[start] == b {
        start
    } else {
        index_of(bytes, start + 1, end, b)
    }
}

/// Whether the comma-separated list in `start..end` has an entry equal to
/// `user` (an empty list is one empty entry).
pub open spec fn members_contain(bytes: Seq<u8>, start: int, end: int, user: Seq<u8>) -> bool
    decreases end - start,
{
    let k = index_of(bytes, start, end, MEMBER_SEPARATOR);
    if bytes.subrange(start, k) == user {
        true
    } else if start <= k < end {
        members_contain(bytes, k + 1, end, user)
    } else {
        false
    }
}

/// Where the fourth `:`-separated field of the line `start..end` begins
/// (the text after its third `:`), or `end` if it has fewer than three.
pub open spec fn member_field_start(bytes: Seq<u8>, start: int, end: int) -> int {
    let c1 = index_of(bytes, start, end, FIELD_SEPARATOR);
    let c2 = if c1 < end {
        index_of(bytes, c1 + 1, end, FIELD_SEPARATOR)
    } else {
        end
    };
    let c3 = if c2 < end {
        index_of(bytes, c2 + 1, end, FIELD_SEPARATOR)
    } else {
        end
    };
    if c3 < end {
        c3 + 1
    } else {
        end
    }
}

/// The end of the line that starts at `pos`: before its `\n` (and before a
/// `\r` right ahead of that `\n`), or the end of the text.
pub open spec fn line_end(bytes: Seq<u8>, pos: int) -> int {
    let nl = index_of(bytes, pos, bytes.len() as int, NEWLINE);
    if nl < bytes.len() && nl > pos && bytes[nl - 1] == CARRIAGE_RETURN {
        nl - 1
    } else {
        nl
    }
}

/// Whether, scanning the lines from `pos` on, the first line whose name
/// field is `group` lists `user` among its members.
pub open spec fn group_lists_member_from(bytes: Seq<u8>, pos: int, group: Seq<u8>, user: Seq<u8>) -> bool
    decreases bytes.len() - pos,
{
    if pos < 0 || pos >= bytes.len() {
        false
    } else {
        let end = line_end(bytes, pos);
        let nl = index_of(bytes, pos, bytes.len() as int, NEWLINE);
        if bytes.subrange(pos, index_of(bytes, pos, end, FIELD_SEPARATOR)) == group {
            members_contain(bytes, member_field_start(bytes, pos, end), end, user)
        } else if pos <= nl < bytes.len() {
            group_lists_member_from(bytes, nl + 1, group, user)
        } else {
            false
        }
    }
}

proof fn lemma_index_of(bytes: Seq<u8>, start: int, end: int, b: u8)
    requires
        0 <= start,
        end <= bytes.len(),
    ensures
        start <= end ==> start <= index_of(bytes, start, end, b) <= end,
        start > end ==> index_of(bytes, start, end, b) == end,
        index_of(bytes, start, end, b) < end ==> bytes[index_of(bytes, start, end, b)] == b,
        forall|j: int| start <= j < index_of(bytes, start, end, b) ==> bytes[j] != b,
    decreases end - start,
{
    if start < end && bytes[start] != b {
        lemma_index_of(bytes, start + 1, end, b);
    }
}

/// The first index in `start..end` holding `b`, or `end`.
fn find_byte(bytes: &[u8], start: usize, end: usize, b: u8) -> (i: usize)
    requires
        start <= end <= bytes@.len(),
    ensures
        i == index_of(bytes@, start as int, end as int, b),
        start <= i <= end,
{
    proof {
        lemma_index_of(bytes@, start as int, end as int, b);
    }
    let mut i = start;
    while i < end && bytes[i] != b
        invariant
            start <= i <= end <= bytes@.len(),
            index_of(bytes@, i as int, end as int, b) == index_of(bytes@, start as int, end as int, b),
        decreases end - i,
    {
        i = i + 1;
    }
    i
}

/// Whether `bytes[start..end]` equals `other`.
fn range_eq(bytes: &[u8], start: usize, end: usize, other: &[u8]) -> (same: bool)
    requires
        start <= end <= bytes@.len(),
    ensures
        same == (bytes@.subrange(start as int, end as int) == other@),
{
    if end - start != other.len() {
        assert(bytes@.subrange(start as int, end as int).len() != other@.len());
        return false;
    }
    let mut i: usize = 0;
    while i < other.len()
        invariant
            end - start == other@.len(),
            start <= end <= bytes@.len(),
            0 <= i <= other@.len(),
            forall|j: int| 0 <= j < i ==> bytes@[start + j] == other@[j],
        decreases other.len() - i,
    {
        if bytes[start + i] != other[i] {
            assert(bytes@.subrange(start as int, end as int)[i as int] != other@[i as int]);
            return false;
        }
        i = i + 1;
    }
    assert(bytes@.subrange(start as int, end as int) =~= other@);
    true
}

/// Whether the comma-separated list in `bytes[start..end]` has an entry
/// equal to `user`.
fn list_contains(bytes: &[u8], start: usize, end: usize, user: &[u8]) -> (found: bool)
    requires
        start <= end <= bytes@.len(),
    ensures
        found == members_contain(bytes@, start as int, end as int, user@),
    decreases end - start,
{
    let k = find_byte(bytes, start, end, MEMBER_SEPARATOR);
    if range_eq(bytes, start, k, user) {
        true
    } else if k < end {
        list_contains(bytes, k + 1, end, user)
    } else {
        false
    }
}

/// Whether `/etc/group` text lists `username` as a member of `group_name`:
/// the first line whose name field is `group_name` decides, by its
/// comma-separated member list (the fourth `:`-separated field).
pub fn group_contains_member(etc_group_contents: &str, group_name: &str, username: &str) -> (found:
    bool)
    ensures
        found == group_lists_member_from(
            etc_group_contents.spec_bytes(),
            0,
            group_name.spec_bytes(),
            username.spec_bytes(),
        ),
{
    let bytes = etc_group_contents.as_bytes();
    let group = group_name.as_bytes();
    let user = username.as_bytes();
    let mut pos: usize = 0;
    while pos < bytes.len()
        invariant
            0 <= pos <= bytes@.len(),
            bytes@ == etc_group_contents.spec_bytes(),
            group@ == group_name.spec_bytes(),
            user@ == username.spec_bytes(),
            group_lists_member_from(bytes@, pos as int, group@, user@) == group_lists_member_from(
                bytes@,
                0,
                group@,
                user@,
            ),
        decreases bytes.len() - pos,
    {
        let nl = find_byte(bytes, pos, bytes.len(), NEWLINE);
        let end = if nl < bytes.len() && nl > pos && bytes[nl - 1] == CARRIAGE_RETURN {
            nl - 1
        } else {
            nl
        };
        assert(end == line_end(bytes@, pos as int));
        let c1 = find_byte(bytes, pos, end, FIELD_SEPARATOR);
        if range_eq(bytes, pos, c1, group) {
            let c2 = if c1 < end {
                find_byte(bytes, c1 + 1, end, FIELD_SEPARATOR)
            } else {
                end
            };
            let c3 = if c2 < end {
                find_byte(bytes, c2 + 1, end, FIELD_SEPARATOR)
            } else {
                end
            };
            let members = if c3 < end {
                c3 + 1
            } else {
                end
            };
            assert(members == member_field_start(bytes@, pos as int, end as int));
            return list_contains(bytes, members, end, user);
        }
        if nl < bytes.len() {
            pos = nl + 1;
        } else {
            return false;
        }
    }
    false
}

/// What the Settings page tells the user about input access.
#[derive(Debug, Clone, Copy, PartialEq, Eq, Structural)]
pub enum InputAccessGuidance {
    /// In the `input` group, and this running app has access.
    Ready,
    /// Membership was granted after this session started: log out and back
    /// in, then restart the app.
    Relogin,
    /// Not in the `input` group: add the user to it, then log out and back
    /// in.
    JoinGroup,
}

/// The guidance for the user, from whether the system config lists them
/// in the `input` group and whether this process got at the input devices
/// (as controller or as receiver).
pub fn input_access_guidance(in_group_config: bool, controller_enabled: bool, receiver_enabled: bool) -> (guidance: InputAccessGuidance)
    ensures
        guidance == (if in_group_config && (controller_enabled || receiver_enabled) {
            InputAccessGuidance::Ready
        } else if in_group_config {
            InputAccessGuidance::Relogin
        } else {
            InputAccessGuidance::JoinGroup
        }),
{
    let process_has_access = controller_enabled || receiver_enabled;
    if in_group_config && process_has_access {
        InputAccessGuidance::Ready
    } else if in_group_config {
        InputAccessGuidance::Relogin
    } else {
        InputAccessGuidance::JoinGroup
    }
}

} // verus!
