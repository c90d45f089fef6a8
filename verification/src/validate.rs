//! Rules that identifiers and paths have to meet.

use vstd::prelude::*;

use crate::error::{Error, ErrorView};
use crate::path::PathBuf;
use crate::stdtext;
use crate::stdtext::quoted_text;
use crate::text;
use crate::text::{chars_of, joined, push_decimal, starts_with};

verus! {

/// Maximum length of a task ID.
pub const MAX_TASK_ID_LEN: usize = 128;

/// Whether a character may stand in a task ID: `[a-zA-Z0-9-]`.
pub open spec fn task_id_char(c: char) -> bool {
    ||| 'a' <= c <= 'z'
    ||| 'A' <= c <= 'Z'
    ||| '0' <= c <= '9'
    ||| c == '-'
}

/// Whether a text is a task ID.
pub open spec fn is_task_id(id: Seq<char>) -> bool {
    &&& 0 < id.len() <= MAX_TASK_ID_LEN
    &&& forall|i: int| 0 <= i < id.len() ==> task_id_char(#[trigger] id[i])
}

/// What is said of a text that is no task ID: the first thing that is wrong with it.
/// The length counts the bytes of its UTF-8 form.
pub open spec fn task_id_error(id: Seq<char>) -> Seq<char> {
    let len = vstd::utf8::encode_utf8(id).len();
    if id.len() == 0 {
        "empty task ID"@
    } else if len > MAX_TASK_ID_LEN {
        "task ID too long ("@ + text::decimal(len) + " chars, max 128)"@
    } else {
        "task ID contains invalid characters: "@ + stdtext::quoted(id)
    }
}

/// Validates a task ID.
///
/// Task IDs become parts of file system paths (cgroup directories, temporary directories),
/// so they hold nothing but letters, digits and dashes, and at most 128 of them. Gives back
/// the ID it was given, or says what is wrong with it.
pub fn sanitize_task_id(id: &str) -> (checked: Result<&str, Error>)
    ensures
        checked is Ok <==> is_task_id(id@),
        checked matches Ok(same) ==> same@ == id@,
        checked matches Err(error) ==> error@ == ErrorView::Validation(task_id_error(id@)),
{
    if id.is_empty() {
        return Err(Error::Validation("empty task ID".to_owned()));
    }
    let len = id.as_bytes().len();
    proof {
        if is_task_id(id@) {
            vstd::utf8::is_ascii_chars_encode_utf8(id@);
        }
    }
    if len > MAX_TASK_ID_LEN {
        let mut message = "task ID too long (".to_owned();
        push_decimal(&mut message, len as u64);
        message.append(" chars, max 128)");
        return Err(Error::Validation(message));
    }
    let chars = chars_of(id);
    for i in 0..chars.len()
        invariant
            chars@ == id@,
            0 < id@.len(),
            vstd::utf8::encode_utf8(id@).len() <= MAX_TASK_ID_LEN,
            forall|j: int| 0 <= j < i ==> task_id_char(#[trigger] id@[j]),
    {
        let c = chars[i];
        if !(('a' <= c && c <= 'z') || ('A' <= c && c <= 'Z') || ('0' <= c && c <= '9') || c
            == '-') {
            let message = joined(
                "task ID contains invalid characters: ",
                quoted_text(id).as_str(),
            );
            assert(!task_id_char(id@[i as int]));
            return Err(Error::Validation(message));
        }
    }
    proof {
        vstd::utf8::is_ascii_chars_encode_utf8(id@);
    }
    Ok(id)
}

/// Whether a path, shown as text, lies under `/sys/fs/cgroup`.
pub open spec fn shown_under_cgroup(shown: Seq<char>) -> bool {
    "/sys/fs/cgroup"@.is_prefix_of(shown)
}

/// Whether a path lies under `/sys/fs/cgroup`.
pub open spec fn under_cgroup(path: Seq<u8>) -> bool {
    shown_under_cgroup(stdtext::utf8_lossy(path))
}

/// Refuses a path, shown as text, that lies under `/sys/fs/cgroup`.
pub fn reject_cgroup_path(shown: &str) -> (checked: Result<(), Error>)
    ensures
        checked is Ok <==> !shown_under_cgroup(shown@),
        checked matches Err(error) ==> error@ == ErrorView::Validation(
            "path must not include /sys/fs/cgroup: "@ + shown@,
        ),
{
    if starts_with(shown, "/sys/fs/cgroup") {
        Err(Error::Validation(joined("path must not include /sys/fs/cgroup: ", shown)))
    } else {
        Ok(())
    }
}

/// Refuses paths that lie under `/sys/fs/cgroup`, naming the first one.
///
/// A process that could write there could lift its own resource limits.
pub fn reject_cgroup_paths(paths: &[PathBuf]) -> (checked: Result<(), Error>)
    ensures
        checked is Ok <==> forall|i: int|
            0 <= i < paths@.len() ==> !under_cgroup((#[trigger] paths@[i])@),
        checked matches Err(error) ==> exists|i: int|
            0 <= i < paths@.len() && under_cgroup((#[trigger] paths@[i])@) && (forall|j: int|
                0 <= j < i ==> !under_cgroup((#[trigger] paths@[j])@)) && error@
                == ErrorView::Validation(
                "path must not include /sys/fs/cgroup: "@ + stdtext::utf8_lossy(paths@[i]@),
            ),
{
    for i in 0..paths.len()
        invariant
            forall|j: int| 0 <= j < i ==> !under_cgroup((#[trigger] paths@[j])@),
    {
        if let Err(error) = reject_cgroup_path(paths[i].to_string_lossy().as_str()) {
            assert(under_cgroup(paths@[i as int]@));
            return Err(error);
        }
    }
    Ok(())
}

/// One character is a task ID exactly if it is a letter of ASCII, a digit of ASCII or a dash.
pub proof fn law_task_id_single(c: char)
    ensures
        is_task_id(seq![c]) <==> ('a' <= c <= 'z') || ('A' <= c <= 'Z') || ('0' <= c <= '9') || c
            == '-',
{
    assert(seq![c][0] == c);
}

/// Two task IDs one after the other are a task ID, as long as they are at most 128
/// characters; and a text is a task ID only if both of its parts are, wherever it is cut.
pub proof fn law_task_id_parts(a: Seq<char>, b: Seq<char>)
    requires
        a.len() > 0,
        b.len() > 0,
    ensures
        is_task_id(a + b) <==> is_task_id(a) && is_task_id(b) && a.len() + b.len() <= 128,
{
    if is_task_id(a + b) {
        assert forall|i: int| 0 <= i < a.len() implies task_id_char(#[trigger] a[i]) by {
            assert((a + b)[i] == a[i]);
        }
        assert forall|i: int| 0 <= i < b.len() implies task_id_char(#[trigger] b[i]) by {
            assert((a + b)[a.len() + i] == b[i]);
        }
    }
}

/// No characters, or more than 128, are no task ID.
pub proof fn law_task_id_length(id: Seq<char>)
    ensures
        is_task_id(id) ==> 1 <= id.len() <= 128,
{
}

/// What is said of a text that is no task ID: that it is empty, or else that it is too long,
/// with its length in bytes, or else which characters it has.
pub proof fn law_task_id_messages(id: Seq<char>)
    ensures
        id.len() == 0 ==> task_id_error(id) == "empty task ID"@,
        id.len() > 0 && vstd::utf8::encode_utf8(id).len() > 128 ==> task_id_error(id)
            == "task ID too long ("@ + text::decimal(vstd::utf8::encode_utf8(id).len())
            + " chars, max 128)"@,
        id.len() > 0 && vstd::utf8::encode_utf8(id).len() <= 128 ==> task_id_error(id)
            == "task ID contains invalid characters: "@ + stdtext::quoted(id),
{
}

/// A path is refused exactly if it is `/sys/fs/cgroup` with anything or nothing after it.
pub proof fn law_cgroup_paths(rest: Seq<char>, shown: Seq<char>)
    ensures
        shown_under_cgroup("/sys/fs/cgroup"@ + rest),
        shown_under_cgroup(shown) ==> shown == "/sys/fs/cgroup"@ + shown.skip(14),
        forall|path: Seq<u8>| #[trigger]
            under_cgroup(path) == shown_under_cgroup(stdtext::utf8_lossy(path)),
{
    reveal_strlit("/sys/fs/cgroup");
    let prefix = "/sys/fs/cgroup"@;
    assert((prefix + rest).take(prefix.len() as int) =~= prefix);
    assert((prefix + rest).subrange(0, prefix.len() as int) =~= prefix);
    if shown_under_cgroup(shown) {
        assert(shown =~= prefix + shown.skip(14));
    }
}

} // verus!
