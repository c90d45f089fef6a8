//! What holds of task directories and of lists of paths.

use vstd::prelude::*;

use crate::env;
use crate::env::Resolution;
use crate::path;
use crate::path::PathBuf;
use crate::stdtext;
use crate::text;
use crate::text_laws;
use crate::validate;

verus! {

/// The name of a task's directory.
pub open spec fn task_dir_name(task_id: Seq<char>) -> Seq<u8> {
    vstd::utf8::encode_utf8("arapuca-"@ + task_id)
}

/// The directory of a task whose ID is valid lies directly in the temporary directory: its
/// name is a single component, with no separator in it, and neither `.` nor `..`.
pub proof fn law_task_dir_stays_inside(temp_dir: Seq<u8>, task_id: Seq<char>)
    requires
        validate::is_task_id(task_id),
    ensures
        env::tmp_dir_bytes(temp_dir, task_id) == (if temp_dir.len() > 0 && temp_dir.last() != 0x2f {
            temp_dir.push(0x2f)
        } else {
            temp_dir
        }) + task_dir_name(task_id),
        forall|i: int|
            0 <= i < task_dir_name(task_id).len() ==> #[trigger] task_dir_name(task_id)[i] != 0x2f
                && task_dir_name(task_id)[i] != 0x2e && task_dir_name(task_id)[i] != 0,
{
    let name = "arapuca-"@ + task_id;
    reveal_strlit("arapuca-");
    assert forall|i: int| 0 <= i < name.len() implies (name[i] as u32) < 0x80 && name[i] != '/'
        && name[i] != '.' && name[i] != '\0' by {
        if i >= 8 {
            assert(validate::task_id_char(task_id[i - 8]));
        }
    }
    assert(vstd::utf8::is_ascii_chars(name));
    vstd::utf8::is_ascii_chars_encode_utf8(name);
    assert(task_dir_name(task_id)[0] == 'a' as u8);
}

/// Different tasks have different directories.
pub proof fn law_task_dirs_distinct(temp_dir: Seq<u8>, a: Seq<char>, b: Seq<char>)
    requires
        env::tmp_dir_bytes(temp_dir, a) == env::tmp_dir_bytes(temp_dir, b),
    ensures
        a == b,
{
    reveal_strlit("arapuca-");
    lemma_name_start(a);
    lemma_name_start(b);
    let base = if temp_dir.len() > 0 && temp_dir.last() != 0x2f {
        temp_dir.push(0x2f)
    } else {
        temp_dir
    };
    let whole = env::tmp_dir_bytes(temp_dir, a);
    assert(whole.skip(base.len() as int) == task_dir_name(a));
    assert(whole.skip(base.len() as int) == task_dir_name(b));
    vstd::utf8::encode_utf8_decode_utf8("arapuca-"@ + a);
    vstd::utf8::encode_utf8_decode_utf8("arapuca-"@ + b);
    assert(("arapuca-"@ + a).skip(8) == a);
    assert(("arapuca-"@ + b).skip(8) == b);
}

/// The name of a task's directory starts with a letter.
proof fn lemma_name_start(task_id: Seq<char>)
    ensures
        task_dir_name(task_id).len() > 0,
        task_dir_name(task_id)[0] == 'a' as u8,
{
    reveal_strlit("arapuca-");
    let name = "arapuca-"@ + task_id;
    assert(name[0] == 'a');
    vstd::utf8::encode_utf8_first_scalar(name);
    assert(vstd::utf8::encode_scalar('a' as u32) == seq!['a' as u8]) by {
        assert(0x61u32 & 0x7f == 0x61) by (bit_vector);
    }
}

/// Whether a text can stand in a list of paths: not empty, without the separator, and
/// without white space at either end.
pub open spec fn listable(path: Seq<char>) -> bool {
    &&& path.len() > 0
    &&& !path.contains(':')
    &&& text::trim(path) == path
}

/// Every path of a list is one that can stand in it.
pub proof fn law_listed_paths_listable(list: Seq<char>)
    ensures
        forall|i: int|
            0 <= i < env::listed_paths(list).len() ==> listable(
                #[trigger] env::listed_paths(list)[i],
            ),
{
    lemma_split_pieces(list, ':');
    lemma_parsed_listable(text::split(list, ':'));
}

/// No piece of a split holds the separator.
proof fn lemma_split_pieces(s: Seq<char>, c: char)
    ensures
        forall|i: int|
            0 <= i < text::split(s, c).len() ==> !(#[trigger] text::split(s, c)[i]).contains(c),
    decreases s.len(),
{
    lemma_find_first(s, c);
    let k = text::find(s, c);
    if k < s.len() {
        let rest = s.skip(k + 1);
        lemma_split_pieces(rest, c);
        let pieces = text::split(s, c);
        assert(pieces == seq![s.take(k)] + text::split(rest, c));
        assert forall|i: int| 0 <= i < pieces.len() implies !(#[trigger] pieces[i]).contains(c) by {
            if i > 0 {
                assert(pieces[i] == text::split(rest, c)[i - 1]);
            }
        }
    }
}

/// What stands before the first occurrence is something else.
proof fn lemma_find_first(s: Seq<char>, c: char)
    ensures
        0 <= text::find(s, c) <= s.len(),
        forall|j: int| 0 <= j < text::find(s, c) ==> s[j] != c,
        text::find(s, c) < s.len() ==> s[text::find(s, c)] == c,
    decreases s.len(),
{
    if s.len() > 0 && s[0] != c {
        let rest = s.drop_first();
        lemma_find_first(rest, c);
        assert forall|j: int| 0 <= j < text::find(s, c) implies s[j] != c by {
            if j > 0 {
                assert(rest[j - 1] == s[j]);
            }
        }
    }
}

/// Trimming leaves a part of a text that has nothing left to trim.
proof fn lemma_trim(s: Seq<char>)
    ensures
        exists|a: int, b: int|
            0 <= a <= b <= s.len() && text::trim(s) == #[trigger] s.subrange(a, b),
        text::trim(text::trim(s)) == text::trim(s),
{
    lemma_trim_start(s);
    let t = text::trim_start(s);
    lemma_trim_end(t);
    let u = text::trim_end(t);
    let a = choose|a: int| 0 <= a <= s.len() && t == #[trigger] s.skip(a);
    let b = choose|b: int| 0 <= b <= t.len() && u == #[trigger] t.take(b);
    assert(u == s.subrange(a, a + b));
    if u.len() > 0 {
        assert(u[0] == t[0]);
    }
}

/// Trimming the start leaves an end of a text that starts with no white space.
proof fn lemma_trim_start(s: Seq<char>)
    ensures
        exists|a: int| 0 <= a <= s.len() && text::trim_start(s) == #[trigger] s.skip(a),
        text::trim_start(s).len() > 0 ==> !text::white_space(text::trim_start(s)[0]),
    decreases s.len(),
{
    if s.len() > 0 && text::white_space(s[0]) {
        let rest = s.drop_first();
        lemma_trim_start(rest);
        let a = choose|a: int|
            0 <= a <= rest.len() && text::trim_start(rest) == #[trigger] rest.skip(a);
        assert(rest.skip(a) == s.skip(a + 1));
    } else {
        assert(s.skip(0) == s);
    }
}

/// Trimming the end leaves a start of a text that ends with no white space.
proof fn lemma_trim_end(s: Seq<char>)
    ensures
        exists|b: int| 0 <= b <= s.len() && text::trim_end(s) == #[trigger] s.take(b),
        text::trim_end(s).len() > 0 ==> !text::white_space(text::trim_end(s).last()),
        text::trim_end(text::trim_end(s)) == text::trim_end(s),
    decreases s.len(),
{
    if s.len() > 0 && text::white_space(s.last()) {
        let rest = s.drop_last();
        lemma_trim_end(rest);
        let b = choose|b: int|
            0 <= b <= rest.len() && text::trim_end(rest) == #[trigger] rest.take(b);
        assert(rest.take(b) == s.take(b));
    } else {
        assert(s.take(s.len() as int) == s);
    }
}

/// Pieces without the separator give listable paths.
proof fn lemma_parsed_listable(pieces: Seq<Seq<char>>)
    requires
        forall|i: int| 0 <= i < pieces.len() ==> !(#[trigger] pieces[i]).contains(':'),
    ensures
        forall|i: int|
            0 <= i < env::parsed(pieces).len() ==> listable(#[trigger] env::parsed(pieces)[i]),
    decreases pieces.len(),
{
    if pieces.len() > 0 {
        let init = pieces.drop_last();
        assert forall|i: int| 0 <= i < init.len() implies !(#[trigger] init[i]).contains(':') by {
            assert(init[i] == pieces[i]);
        }
        lemma_parsed_listable(init);
        let last = pieces.last();
        assert(!pieces[pieces.len() - 1].contains(':'));
        lemma_trim(last);
        let (a, b) = choose|a: int, b: int|
            0 <= a <= b <= last.len() && text::trim(last) == #[trigger] last.subrange(a, b);
        if text::trim(last).contains(':') {
            let i = choose|i: int| 0 <= i < text::trim(last).len() && text::trim(last)[i] == ':';
            assert(last[a + i] == ':');
        }
        assert forall|i: int| 0 <= i < env::parsed(pieces).len() implies listable(
            #[trigger] env::parsed(pieces)[i],
        ) by {
            if i < env::parsed(init).len() {
                assert(env::parsed(pieces)[i] == env::parsed(init)[i]);
            } else {
                assert(env::parsed(pieces)[i] == text::trim(last));
            }
        }
    }
}

/// A list of paths, with `:` between them.
pub open spec fn path_list(paths: Seq<Seq<char>>) -> Seq<char>
    decreases paths.len(),
{
    if paths.len() == 0 {
        seq![]
    } else if paths.len() == 1 {
        paths[0]
    } else {
        paths[0].push(':') + path_list(paths.drop_first())
    }
}

/// Paths that can stand in a list read back from it, all of them and in their order.
pub proof fn law_path_list_reads_back(paths: Seq<Seq<char>>)
    requires
        forall|i: int| 0 <= i < paths.len() ==> listable(#[trigger] paths[i]),
    ensures
        env::listed_paths(path_list(paths)) == paths,
{
    if paths.len() == 0 {
        assert(text::split(seq![], ':') == seq![Seq::<char>::empty()]);
        let pieces = seq![Seq::<char>::empty()];
        assert(pieces.drop_last() == Seq::<Seq<char>>::empty());
        assert(env::parsed(pieces.drop_last()) == Seq::<Seq<char>>::empty());
        assert(text::trim(pieces.last()).len() == 0);
        assert(env::parsed(pieces) =~= paths);
    } else {
        lemma_split_list(paths);
        lemma_parsed_same(paths);
    }
}

/// A list of paths splits into them.
proof fn lemma_split_list(paths: Seq<Seq<char>>)
    requires
        paths.len() > 0,
        forall|i: int| 0 <= i < paths.len() ==> listable(#[trigger] paths[i]),
    ensures
        text::split(path_list(paths), ':') == paths,
    decreases paths.len(),
{
    let list = path_list(paths);
    let first = paths[0];
    let k = first.len() as int;
    assert(listable(paths[0]));
    assert forall|j: int| 0 <= j < k implies list[j] != ':' by {
        assert(list[j] == first[j]);
    }
    text::lemma_find(list, ':', k);
    if paths.len() == 1 {
        assert(text::split(list, ':') =~= paths);
    } else {
        let rest = paths.drop_first();
        assert forall|i: int| 0 <= i < rest.len() implies listable(#[trigger] rest[i]) by {
            assert(rest[i] == paths[i + 1]);
        }
        lemma_split_list(rest);
        assert(list.take(k) == first);
        assert(list.skip(k + 1) == path_list(rest));
        assert(seq![first] + rest =~= paths);
    }
}

/// Listable paths are kept as they are.
proof fn lemma_parsed_same(paths: Seq<Seq<char>>)
    requires
        forall|i: int| 0 <= i < paths.len() ==> listable(#[trigger] paths[i]),
    ensures
        env::parsed(paths) == paths,
    decreases paths.len(),
{
    if paths.len() > 0 {
        let init = paths.drop_last();
        assert forall|i: int| 0 <= i < init.len() implies listable(#[trigger] init[i]) by {
            assert(init[i] == paths[i]);
        }
        lemma_parsed_same(init);
        assert(listable(paths[paths.len() - 1]));
        assert(init.push(paths.last()) =~= paths);
    }
}

/// The paths of two lists with a colon between them are those of the first and then those
/// of the second: no path of a list depends on another.
pub proof fn law_listed_concat(a: Seq<char>, b: Seq<char>)
    ensures
        env::listed_paths(a.push(':') + b) == env::listed_paths(a) + env::listed_paths(b),
{
    text_laws::law_split_concat(a, b, ':');
    lemma_parsed_concat(text::split(a, ':'), text::split(b, ':'));
}

/// Pieces are parsed one by one.
proof fn lemma_parsed_concat(a: Seq<Seq<char>>, b: Seq<Seq<char>>)
    ensures
        env::parsed(a + b) == env::parsed(a) + env::parsed(b),
    decreases b.len(),
{
    if b.len() == 0 {
        assert(a + b == a);
        assert(env::parsed(a) + env::parsed(b) =~= env::parsed(a));
    } else {
        lemma_parsed_concat(a, b.drop_last());
        assert((a + b).drop_last() == a + b.drop_last());
        assert((a + b).last() == b.last());
        assert(env::parsed(a + b) =~= env::parsed(a) + env::parsed(b));
    }
}

/// A list without a colon is one path, without the white space around it, or none if there
/// is only white space.
pub proof fn law_listed_single(before: Seq<char>, path: Seq<char>, after: Seq<char>)
    requires
        text_laws::blank(before),
        text_laws::blank(after),
        text_laws::tight(path),
        !(before + path + after).contains(':'),
    ensures
        env::listed_paths(before + path + after) == if path.len() > 0 {
            seq![path]
        } else {
            seq![]
        },
{
    let list = before + path + after;
    text_laws::law_trim_around(before, path, after);
    assert forall|j: int| 0 <= j < list.len() implies list[j] != ':' by {
        assert(list.contains(list[j]));
    }
    text::lemma_find(list, ':', list.len() as int);
    let pieces = text::split(list, ':');
    assert(pieces =~= seq![list]);
    assert(pieces.drop_last() =~= Seq::<Seq<char>>::empty());
    assert(env::parsed(pieces.drop_last()) == Seq::<Seq<char>>::empty());
    assert(env::parsed(pieces) =~= if path.len() > 0 {
        seq![path]
    } else {
        seq![]
    });
}

/// Paths are encoded one by one.
pub proof fn law_encoded(texts: Seq<Seq<char>>, i: int)
    requires
        0 <= i < texts.len(),
    ensures
        env::encoded(texts).len() == texts.len(),
        env::encoded(texts)[i] == vstd::utf8::encode_utf8(texts[i]),
{
}

/// The bytes of some paths are those of each of them, in their order.
pub proof fn law_path_bytes(paths: Seq<PathBuf>, i: int)
    requires
        0 <= i < paths.len(),
    ensures
        path::path_bytes(paths).len() == paths.len(),
        path::path_bytes(paths)[i] == paths[i].bytes@,
{
}

/// Paths are resolved one by one: where two lists lead is where the first leads and then
/// where the second leads.
pub proof fn law_existing_concat(a: Seq<Resolution>, b: Seq<Resolution>)
    ensures
        env::existing(a + b) == env::existing(a) + env::existing(b),
    decreases b.len(),
{
    if b.len() == 0 {
        assert(a + b == a);
        assert(env::existing(a) + env::existing(b) =~= env::existing(a));
    } else {
        law_existing_concat(a, b.drop_last());
        assert((a + b).drop_last() == a + b.drop_last());
        assert((a + b).last() == b.last());
        assert(env::existing(a + b) =~= env::existing(a) + env::existing(b));
    }
}

/// A path that exists is replaced by where it leads, and one that does not is dropped.
pub proof fn law_existing_single(r: Resolution)
    ensures
        r.canonical matches Some(target) ==> env::existing(seq![r]) == seq![target.bytes@],
        r.canonical is None ==> env::existing(seq![r]) == Seq::<Seq<u8>>::empty(),
{
    assert(seq![r].drop_last() =~= Seq::<Resolution>::empty());
    assert(env::existing(seq![r].drop_last()) == Seq::<Seq<u8>>::empty());
    if r.canonical is Some {
        assert(env::existing(seq![r]) =~= seq![r.canonical->0.bytes@]);
    }
}

/// Where every path of a list exists, the result has as many paths, and each is where the
/// path at its place leads.
pub proof fn law_existing_all(resolved: Seq<Resolution>)
    requires
        forall|i: int| 0 <= i < resolved.len() ==> (#[trigger] resolved[i]).canonical is Some,
    ensures
        env::existing(resolved).len() == resolved.len(),
        forall|i: int|
            0 <= i < resolved.len() ==> #[trigger] env::existing(resolved)[i] == (
            resolved[i].canonical->0).bytes@,
    decreases resolved.len(),
{
    if resolved.len() > 0 {
        let init = resolved.drop_last();
        assert forall|i: int| 0 <= i < init.len() implies (
        #[trigger] init[i]).canonical is Some by {
            assert(init[i] == resolved[i]);
        }
        law_existing_all(init);
        assert forall|i: int| 0 <= i < resolved.len() implies #[trigger] env::existing(resolved)[i]
            == (resolved[i].canonical->0).bytes@ by {
            if i < init.len() {
                assert(env::existing(resolved)[i] == env::existing(init)[i]);
            }
        }
    }
}

/// A path below another starts with it, goes on with a separator where there is none yet,
/// and ends with what is below. What is absolute is below nothing.
pub proof fn law_join(base: Seq<u8>, part: Seq<u8>)
    ensures
        part.len() > 0 && part[0] == 0x2f ==> path::join_bytes(base, part) == part,
        !(part.len() > 0 && part[0] == 0x2f) ==> {
            let joined = path::join_bytes(base, part);
            &&& base.is_prefix_of(joined)
            &&& part.is_suffix_of(joined)
            &&& joined.len() == base.len() + part.len() + (if base.len() > 0 && base.last()
                != 0x2f {
                1int
            } else {
                0
            })
            &&& base.len() > 0 && base.last() != 0x2f ==> joined[base.len() as int] == 0x2f
        },
{
    let joined = path::join_bytes(base, part);
    if !(part.len() > 0 && part[0] == 0x2f) {
        assert(joined.take(base.len() as int) =~= base);
        assert(joined.skip(joined.len() - part.len()) =~= part);
    }
}

/// The directory of a task is `arapuca-` and its ID, below the temporary directory.
pub proof fn law_task_dir(temp_dir: Seq<u8>, task_id: Seq<char>)
    ensures
        env::tmp_dir_bytes(temp_dir, task_id) == (if temp_dir.len() > 0 && temp_dir.last() != 0x2f {
            temp_dir.push(0x2f)
        } else {
            temp_dir
        }) + vstd::utf8::encode_utf8("arapuca-"@ + task_id),
{
    lemma_name_start(task_id);
}

/// The directory of a process for its sockets is `arapuca-sock-` and its number, below the
/// temporary directory, and different processes have different ones.
pub proof fn law_socket_dir(temp_dir: Seq<u8>, pid: nat, other: nat)
    ensures
        env::socket_dir_bytes(temp_dir, pid) == (if temp_dir.len() > 0 && temp_dir.last() != 0x2f {
            temp_dir.push(0x2f)
        } else {
            temp_dir
        }) + vstd::utf8::encode_utf8("arapuca-sock-"@ + text::decimal(pid)),
        env::socket_dir_bytes(temp_dir, pid) == env::socket_dir_bytes(temp_dir, other) ==> pid
            == other,
{
    lemma_socket_name(temp_dir, pid);
    lemma_socket_name(temp_dir, other);
    if env::socket_dir_bytes(temp_dir, pid) == env::socket_dir_bytes(temp_dir, other) {
        let base = if temp_dir.len() > 0 && temp_dir.last() != 0x2f {
            temp_dir.push(0x2f)
        } else {
            temp_dir
        };
        let a = "arapuca-sock-"@ + text::decimal(pid);
        let b = "arapuca-sock-"@ + text::decimal(other);
        let whole = env::socket_dir_bytes(temp_dir, pid);
        assert(whole.skip(base.len() as int) == vstd::utf8::encode_utf8(a));
        assert(whole.skip(base.len() as int) == vstd::utf8::encode_utf8(b));
        vstd::utf8::encode_utf8_decode_utf8(a);
        vstd::utf8::encode_utf8_decode_utf8(b);
        let n = "arapuca-sock-"@.len() as int;
        assert(a.skip(n) == text::decimal(pid));
        assert(b.skip(n) == text::decimal(other));
        text_laws::law_decimal_distinct(pid, other);
    }
}

/// The directory of a process for its sockets.
proof fn lemma_socket_name(temp_dir: Seq<u8>, pid: nat)
    ensures
        env::socket_dir_bytes(temp_dir, pid) == (if temp_dir.len() > 0 && temp_dir.last() != 0x2f {
            temp_dir.push(0x2f)
        } else {
            temp_dir
        }) + vstd::utf8::encode_utf8("arapuca-sock-"@ + text::decimal(pid)),
{
    reveal_strlit("arapuca-sock");
    reveal_strlit("-");
    reveal_strlit("arapuca-sock-");
    assert("arapuca-sock"@ + "-"@ =~= "arapuca-sock-"@);
    let name = "arapuca-sock-"@ + text::decimal(pid);
    assert(name[0] == 'a');
    assert(vstd::utf8::encode_scalar('a' as u32) == seq!['a' as u8]) by {
        assert(0x61u32 & 0x7f == 0x61) by (bit_vector);
    }
    assert(vstd::utf8::encode_utf8(name)[0] == 'a' as u8);
}

/// The variables of an environment are its names and values, in their order.
pub proof fn law_variables(env: Seq<(String, String)>, i: int)
    requires
        0 <= i < env.len(),
    ensures
        env::variables(env).len() == env.len(),
        env::variables(env)[i].0 == env[i].0@,
        env::variables(env)[i].1 == env[i].1@,
{
}

/// A process has four variables of its own: its directory as home and for temporary files,
/// the usual places of programs, and the language.
pub proof fn law_minimal_environment(tmp_dir: Seq<u8>)
    ensures
        ({
            let env = env::minimal_variables(tmp_dir);
            &&& env.len() == 4
            &&& env[0].0 == "HOME"@ && env[0].1 == stdtext::utf8_lossy(tmp_dir)
            &&& env[1].0 == "TMPDIR"@ && env[1].1 == stdtext::utf8_lossy(tmp_dir)
            &&& env[2].0 == "PATH"@ && env[2].1
                == "/usr/local/bin:/usr/bin:/bin:/usr/local/sbin:/usr/sbin:/sbin"@
            &&& env[3].0 == "LANG"@ && env[3].1 == "C.UTF-8"@
        }),
{
}

} // verus!
