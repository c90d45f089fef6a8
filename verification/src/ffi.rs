//! The interface for C, without its pointers: a pointer that may be null is an `Option`, a
//! C string is its bytes up to the terminator, and what a thread keeps as its last error is
//! a [`LastError`] that each call is handed.

use vstd::prelude::*;

use crate::config::Profile;
use crate::path;
use crate::path::PathBuf;
use crate::stdtext;
use crate::stdtext::exact_text;
use crate::text;
use crate::text::{chars_of, joined};

verus! {

/// The status of a call that did what it was asked to.
pub const DONE: i32 = 0;

/// The status of a call that could not.
pub const REFUSED: i32 = -1;

/// The last error of a thread.
#[derive(Debug)]
pub struct LastError {
    message: Option<String>,
}

impl View for LastError {
    type V = Option<Seq<char>>;

    closed spec fn view(&self) -> Option<Seq<char>> {
        stdtext::optional(self.message)
    }
}

/// What is kept of a message: a C string cannot hold one that has a NUL in it.
pub open spec fn kept(message: Seq<char>) -> Option<Seq<char>> {
    if message.contains('\0') {
        None
    } else {
        Some(message)
    }
}

/// Whether a text can be a C string.
fn has_no_nul(text: &str) -> (free: bool)
    ensures
        free == !text@.contains('\0'),
{
    let chars = chars_of(text);
    for i in 0..chars.len()
        invariant
            chars@ == text@,
            forall|j: int| 0 <= j < i ==> text@[j] != '\0',
    {
        if chars[i] == '\0' {
            assert(text@[i as int] == '\0');
            return false;
        }
    }
    true
}

impl LastError {
    /// No error yet.
    pub fn new() -> (none: LastError)
        ensures
            none@ is None,
    {
        LastError { message: None }
    }
}

/// Keeps a message.
pub fn set_error(errors: &mut LastError, msg: &str)
    ensures
        final(errors)@ == kept(msg@),
{
    errors.message = if has_no_nul(msg) {
        Some(msg.to_owned())
    } else {
        None
    };
}

/// Forgets the message.
pub fn clear_error(errors: &mut LastError)
    ensures
        final(errors)@ is None,
{
    errors.message = None;
}

/// The last error message; nothing if there was no error.
pub fn arapuca_last_error(errors: &LastError) -> (message: Option<&str>)
    ensures
        text::given(message) == errors@,
{
    match &errors.message {
        Some(text) => Some(text.as_str()),
        None => None,
    }
}

/// Opaque profile builder. A freed one has nothing in it.
#[derive(Debug)]
pub struct ArapucaProfile {
    pub inner: Option<Profile>,
}

/// What is wrong with a pointer to a profile.
pub open spec fn profile_problem(profile: Option<ArapucaProfile>) -> Option<Seq<char>> {
    match profile {
        None => Some("null profile pointer"@),
        Some(p) => if p.inner is None {
            Some("profile already freed"@)
        } else {
            None
        },
    }
}

/// What is wrong with a C string.
pub open spec fn cstr_problem(cstr: Option<Seq<u8>>) -> Option<Seq<char>> {
    match cstr {
        None => Some("null string pointer"@),
        Some(bytes) => if vstd::utf8::valid_utf8(bytes) {
            None
        } else {
            Some("invalid UTF-8: "@ + stdtext::utf8_error(bytes))
        },
    }
}

/// Makes a profile builder that allows nothing and limits nothing.
pub fn arapuca_profile_new(errors: &mut LastError) -> (profile: ArapucaProfile)
    ensures
        final(errors)@ is None,
        profile.inner matches Some(inner) && inner.is_blank(),
{
    clear_error(errors);
    ArapucaProfile { inner: Some(Profile::default()) }
}

/// Reads a C string.
fn validate_cstr(cstr: Option<&[u8]>) -> (text: Result<String, String>)
    ensures
        cstr matches Some(bytes) ==> match cstr_problem(Some(bytes@)) {
            Some(problem) => text matches Err(message) && message@ == problem,
            None => text matches Ok(t) && vstd::utf8::encode_utf8(t@) == bytes@,
        },
        cstr is None ==> (text matches Err(message) && Some(message@) == cstr_problem(None)),
{
    match cstr {
        None => Err("null string pointer".to_owned()),
        Some(bytes) => match exact_text(bytes) {
            Ok(text) => {
                proof {
                    vstd::utf8::decode_utf8_encode_utf8(bytes@);
                }
                Ok(text)
            },
            Err(reason) => Err(joined("invalid UTF-8: ", reason.as_str())),
        },
    }
}

/// What is wrong with the arguments of a call that adds a path: the profile is looked at
/// first.
pub open spec fn add_problem(profile: Option<ArapucaProfile>, cstr: Option<Seq<u8>>) -> Option<
    Seq<char>,
> {
    match profile_problem(profile) {
        Some(problem) => Some(problem),
        None => cstr_problem(cstr),
    }
}

/// What a call leaves as the last error of the thread.
pub open spec fn reported(problem: Option<Seq<char>>) -> Option<Seq<char>> {
    match problem {
        Some(message) => kept(message),
        None => None,
    }
}

/// The status of a call: 0, or -1 where something is wrong.
pub open spec fn status_of(problem: Option<Seq<char>>) -> i32 {
    if problem is None {
        DONE
    } else {
        REFUSED
    }
}

/// The bytes of a C string, if there is one.
pub open spec fn cstr_bytes(cstr: Option<&[u8]>) -> Option<Seq<u8>> {
    match cstr {
        Some(bytes) => Some(bytes@),
        None => None,
    }
}

/// Whether a profile has one more path to read, and is otherwise the same.
pub open spec fn read_path_added(before: Profile, after: Profile, path: Seq<u8>) -> bool {
    &&& path::path_bytes(after.read_paths@) == path::path_bytes(before.read_paths@).push(path)
    &&& after == (Profile { read_paths: after.read_paths, ..before })
}

/// Whether a profile has one more path to write, and is otherwise the same.
pub open spec fn write_path_added(before: Profile, after: Profile, path: Seq<u8>) -> bool {
    &&& path::path_bytes(after.write_paths@) == path::path_bytes(before.write_paths@).push(path)
    &&& after == (Profile { write_paths: after.write_paths, ..before })
}

/// Adds a read-only path to a profile. Gives 0, or -1 and an error.
pub fn arapuca_profile_add_read_path(
    errors: &mut LastError,
    profile: Option<&mut ArapucaProfile>,
    path: Option<&[u8]>,
) -> (status: i32)
    ensures
        profile matches Some(p) ==> {
            let problem = add_problem(Some(*p), cstr_bytes(path));
            &&& status == status_of(problem)
            &&& final(errors)@ == reported(problem)
            &&& problem is Some ==> *final(p) == *p
            &&& problem is None ==> (final(p).inner matches Some(after) && read_path_added(
                p.inner->0,
                after,
                path->0@,
            ))
        },
        profile is None ==> {
            let problem = add_problem(None, cstr_bytes(path));
            &&& status == status_of(problem)
            &&& final(errors)@ == reported(problem)
        },
{
    clear_error(errors);
    let Some(profile) = profile else {
        set_error(errors, "null profile pointer");
        return REFUSED;
    };
    let Some(inner) = &mut profile.inner else {
        set_error(errors, "profile already freed");
        return REFUSED;
    };
    match validate_cstr(path) {
        Ok(text) => {
            let ghost before = inner.read_paths@;
            let added = PathBuf::from(text.as_str());
            inner.read_paths.push(added);
            assert(path::path_bytes(inner.read_paths@) =~= path::path_bytes(before).push(added@));
            DONE
        },
        Err(message) => {
            set_error(errors, message.as_str());
            REFUSED
        },
    }
}

/// Adds a read-write path to a profile. Gives 0, or -1 and an error.
pub fn arapuca_profile_add_write_path(
    errors: &mut LastError,
    profile: Option<&mut ArapucaProfile>,
    path: Option<&[u8]>,
) -> (status: i32)
    ensures
        profile matches Some(p) ==> {
            let problem = add_problem(Some(*p), cstr_bytes(path));
            &&& status == status_of(problem)
            &&& final(errors)@ == reported(problem)
            &&& problem is Some ==> *final(p) == *p
            &&& problem is None ==> (final(p).inner matches Some(after) && write_path_added(
                p.inner->0,
                after,
                path->0@,
            ))
        },
        profile is None ==> {
            let problem = add_problem(None, cstr_bytes(path));
            &&& status == status_of(problem)
            &&& final(errors)@ == reported(problem)
        },
{
    clear_error(errors);
    let Some(profile) = profile else {
        set_error(errors, "null profile pointer");
        return REFUSED;
    };
    let Some(inner) = &mut profile.inner else {
        set_error(errors, "profile already freed");
        return REFUSED;
    };
    match validate_cstr(path) {
        Ok(text) => {
            let ghost before = inner.write_paths@;
            let added = PathBuf::from(text.as_str());
            inner.write_paths.push(added);
            assert(path::path_bytes(inner.write_paths@) =~= path::path_bytes(before).push(added@));
            DONE
        },
        Err(message) => {
            set_error(errors, message.as_str());
            REFUSED
        },
    }
}

/// A profile with another memory limit; nothing where it was freed.
pub open spec fn with_max_memory_mb(profile: Option<Profile>, mb: u64) -> Option<Profile> {
    match profile {
        Some(inner) => Some(Profile { max_memory_mb: mb, ..inner }),
        None => None,
    }
}

/// A profile with another CPU limit; nothing where it was freed.
pub open spec fn with_max_cpu_pct(profile: Option<Profile>, pct: u32) -> Option<Profile> {
    match profile {
        Some(inner) => Some(Profile { max_cpu_pct: pct, ..inner }),
        None => None,
    }
}

/// A profile with another limit on processes; nothing where it was freed.
pub open spec fn with_max_pids(profile: Option<Profile>, pids: u32) -> Option<Profile> {
    match profile {
        Some(inner) => Some(Profile { max_pids: pids, ..inner }),
        None => None,
    }
}

/// A profile with another limit on the size of a file; nothing where it was freed.
pub open spec fn with_max_file_size_mb(profile: Option<Profile>, mb: u64) -> Option<Profile> {
    match profile {
        Some(inner) => Some(Profile { max_file_size_mb: mb, ..inner }),
        None => None,
    }
}

/// A profile with its network namespace switched on or off; nothing where it was freed.
pub open spec fn with_use_netns(profile: Option<Profile>, enabled: bool) -> Option<Profile> {
    match profile {
        Some(inner) => Some(Profile { use_netns: enabled, ..inner }),
        None => None,
    }
}

/// Sets the memory limit in MB. A null pointer or a freed profile is left as
/// it is.
pub fn arapuca_profile_set_memory_mb(profile: Option<&mut ArapucaProfile>, mb: u64)
    ensures
        profile matches Some(p) ==> final(p).inner == with_max_memory_mb(p.inner, mb),
{
    if let Some(profile) = profile {
        if let Some(inner) = &mut profile.inner {
            inner.max_memory_mb = mb;
        }
    }
}

/// Sets the CPU limit in percent. A null pointer or a freed profile is left as
/// it is.
pub fn arapuca_profile_set_cpu_pct(profile: Option<&mut ArapucaProfile>, pct: u32)
    ensures
        profile matches Some(p) ==> final(p).inner == with_max_cpu_pct(p.inner, pct),
{
    if let Some(profile) = profile {
        if let Some(inner) = &mut profile.inner {
            inner.max_cpu_pct = pct;
        }
    }
}

/// Sets the limit on processes. A null pointer or a freed profile is left as
/// it is.
pub fn arapuca_profile_set_max_pids(profile: Option<&mut ArapucaProfile>, pids: u32)
    ensures
        profile matches Some(p) ==> final(p).inner == with_max_pids(p.inner, pids),
{
    if let Some(profile) = profile {
        if let Some(inner) = &mut profile.inner {
            inner.max_pids = pids;
        }
    }
}

/// Sets the limit on the size of a file in MB. A null pointer or a freed profile is left as
/// it is.
pub fn arapuca_profile_set_max_file_size_mb(profile: Option<&mut ArapucaProfile>, mb: u64)
    ensures
        profile matches Some(p) ==> final(p).inner == with_max_file_size_mb(p.inner, mb),
{
    if let Some(profile) = profile {
        if let Some(inner) = &mut profile.inner {
            inner.max_file_size_mb = mb;
        }
    }
}

/// Sets whether the process gets a network namespace of its own. A null pointer or a freed
/// profile is left as it is.
pub fn arapuca_profile_set_netns(profile: Option<&mut ArapucaProfile>, enabled: bool)
    ensures
        profile matches Some(p) ==> final(p).inner == with_use_netns(p.inner, enabled),
{
    if let Some(profile) = profile {
        if let Some(inner) = &mut profile.inner {
            inner.use_netns = enabled;
        }
    }
}

/// What is left of a profile that is freed.
pub open spec fn freed(profile: ArapucaProfile) -> ArapucaProfile {
    ArapucaProfile { inner: None, ..profile }
}

/// Frees a profile. A null pointer, or a profile that was freed before, is no error.
pub fn arapuca_profile_free(profile: Option<&mut ArapucaProfile>)
    ensures
        profile matches Some(p) ==> *final(p) == freed(*p),
{
    if let Some(profile) = profile {
        profile.inner = None;
    }
}

/// What to do next to apply a profile to the current process.
#[derive(Clone, Copy, Debug, PartialEq, Eq, Structural)]
pub enum ApplyStep {
    /// Restrict the paths.
    Landlock,
    /// Restrict the system calls.
    Seccomp,
    /// Set the resource limits.
    Rlimit,
    /// Give this status.
    Finished(i32),
}

/// What comes after a step that succeeded.
pub open spec fn step_after(step: ApplyStep) -> ApplyStep {
    match step {
        ApplyStep::Landlock => ApplyStep::Seccomp,
        ApplyStep::Seccomp => ApplyStep::Rlimit,
        ApplyStep::Rlimit => ApplyStep::Finished(DONE),
        ApplyStep::Finished(status) => ApplyStep::Finished(status),
    }
}

/// What is restricted first: on Linux the paths, elsewhere only the resources.
pub open spec fn first_step(linux: bool) -> ApplyStep {
    if linux {
        ApplyStep::Landlock
    } else {
        ApplyStep::Rlimit
    }
}

/// What stands before the reason that a step failed.
pub open spec fn step_prefix(step: ApplyStep) -> Seq<char> {
    match step {
        ApplyStep::Landlock => "landlock: "@,
        ApplyStep::Seccomp => "seccomp: "@,
        _ => "rlimit: "@,
    }
}

/// Starts to apply a profile to the current process. The status is 0 once everything was
/// applied, and -1 as soon as anything was not.
pub fn arapuca_apply(
    errors: &mut LastError,
    profile: Option<&ArapucaProfile>,
    linux: bool,
) -> (first: ApplyStep)
    ensures
        ({
            let problem = profile_problem(
                match profile {
                    Some(p) => Some(*p),
                    None => None,
                },
            );
            &&& final(errors)@ == reported(problem)
            &&& first == if problem is None {
                first_step(linux)
            } else {
                ApplyStep::Finished(REFUSED)
            }
        }),
{
    clear_error(errors);
    let Some(profile) = profile else {
        set_error(errors, "null profile pointer");
        return ApplyStep::Finished(REFUSED);
    };
    if profile.inner.is_none() {
        set_error(errors, "profile already freed");
        return ApplyStep::Finished(REFUSED);
    }
    if linux {
        ApplyStep::Landlock
    } else {
        ApplyStep::Rlimit
    }
}

impl ApplyStep {
    /// Goes on after a step. `outcome` is what the step came to: nothing, or the reason it
    /// failed, which ends the call.
    pub fn after(self, errors: &mut LastError, outcome: Result<(), &str>) -> (next: ApplyStep)
        requires
            self !is Finished,
        ensures
            outcome is Ok ==> next == step_after(self) && final(errors)@ == old(errors)@,
            outcome matches Err(reason) ==> next == ApplyStep::Finished(REFUSED) && final(errors)@
                == kept(step_prefix(self) + reason@),
    {
        let reason = match outcome {
            Ok(_) => return match self {
                ApplyStep::Landlock => ApplyStep::Seccomp,
                ApplyStep::Seccomp => ApplyStep::Rlimit,
                ApplyStep::Rlimit => ApplyStep::Finished(DONE),
                ApplyStep::Finished(status) => ApplyStep::Finished(status),
            },
            Err(reason) => reason,
        };
        let prefix = match self {
            ApplyStep::Landlock => "landlock: ",
            ApplyStep::Seccomp => "seccomp: ",
            _ => "rlimit: ",
        };
        set_error(errors, joined(prefix, reason).as_str());
        ApplyStep::Finished(REFUSED)
    }
}

/// The version of Landlock that the kernel offers, from what probing for it gave; 0 where
/// there is none, which is everywhere but on Linux.
pub fn arapuca_landlock_abi_version(linux: bool, probed: u32) -> (version: u32)
    ensures
        linux ==> version == probed,
        !linux ==> version == 0,
{
    if linux {
        probed
    } else {
        0
    }
}

/// Whether processes can get network namespaces of their own, from what probing for them
/// gave; only on Linux.
pub fn arapuca_netns_available(linux: bool, probed: bool) -> (available: bool)
    ensures
        available == (linux && probed),
{
    linux && probed
}

/// Freeing a profile again changes nothing, and whoever uses it afterwards is told that it
/// was freed.
pub proof fn law_freed_stays_freed(profile: ArapucaProfile, cstr: Option<Seq<u8>>)
    ensures
        freed(freed(profile)) == freed(profile),
        profile_problem(Some(freed(profile))) == Some("profile already freed"@),
        add_problem(Some(freed(profile)), cstr) == Some("profile already freed"@),
{
}

/// Where applying a profile is after some steps, each of which succeeded or did not.
pub open spec fn applied(linux: bool, outcomes: Seq<bool>) -> ApplyStep
    decreases outcomes.len(),
{
    if outcomes.len() == 0 {
        first_step(linux)
    } else {
        let step = applied(linux, outcomes.drop_last());
        if step is Finished {
            step
        } else if outcomes.last() {
            step_after(step)
        } else {
            ApplyStep::Finished(REFUSED)
        }
    }
}

/// Applying a profile fails closed: the status is 0 only once all three restrictions on
/// Linux, or the one elsewhere, were applied, and one that was not makes it -1.
pub proof fn law_apply_fails_closed(linux: bool, outcomes: Seq<bool>)
    ensures
        applied(linux, outcomes) == ApplyStep::Finished(DONE) ==> {
            let steps: int = if linux {
                3
            } else {
                1
            };
            &&& steps <= outcomes.len()
            &&& forall|i: int| 0 <= i < steps ==> #[trigger] outcomes[i]
        },
        applied(linux, outcomes) is Finished ==> {
            ||| applied(linux, outcomes) == ApplyStep::Finished(DONE)
            ||| applied(linux, outcomes) == ApplyStep::Finished(REFUSED)
        },
{
    lemma_applied(linux, outcomes);
}

/// A step is reached only after those before it succeeded.
proof fn lemma_applied(linux: bool, outcomes: Seq<bool>)
    ensures
        ({
            let first: int = if linux {
                0
            } else {
                2
            };
            match applied(linux, outcomes) {
                ApplyStep::Landlock => linux && outcomes.len() == 0,
                ApplyStep::Seccomp => linux && outcomes.len() == 1 && outcomes[0],
                ApplyStep::Rlimit => outcomes.len() == 2 - first && forall|i: int|
                    0 <= i < 2 - first ==> #[trigger] outcomes[i],
                ApplyStep::Finished(status) => status == REFUSED || (status == DONE
                    && outcomes.len() >= 3 - first && forall|i: int|
                    0 <= i < 3 - first ==> #[trigger] outcomes[i]),
            }
        }),
    decreases outcomes.len(),
{
    if outcomes.len() > 0 {
        let before = outcomes.drop_last();
        lemma_applied(linux, before);
        assert(forall|i: int| 0 <= i < before.len() ==> before[i] == #[trigger] outcomes[i]);
    }
}

/// A message is kept as it is, whatever it says, unless it has a NUL in it.
pub proof fn law_messages_kept(message: Seq<char>, before: Seq<char>, after: Seq<char>)
    ensures
        (forall|i: int| 0 <= i < message.len() ==> #[trigger] message[i] != '\0') ==> kept(message)
            == Some(message),
        kept(before + seq!['\0'] + after) is None,
        reported(None) is None,
        reported(Some(message)) == kept(message),
{
    if message.contains('\0') {
        let i = choose|i: int| 0 <= i < message.len() && message[i] == '\0';
        assert(message[i] == '\0');
    }
    let cut = before + seq!['\0'] + after;
    assert(cut[before.len() as int] == '\0');
}

/// A profile that was not freed can be used, whatever is in it, and a path is added to it
/// exactly if it is given and is UTF-8. The profile is looked at before the path, and the
/// status says whether anything is wrong.
pub proof fn law_profile_use(profile: Profile, cstr: Option<Seq<u8>>)
    ensures
        ({
            let builder = Some(ArapucaProfile { inner: Some(profile) });
            &&& profile_problem(builder) is None
            &&& add_problem(builder, cstr) is None <==> cstr is Some && vstd::utf8::valid_utf8(
                cstr->0,
            )
            &&& cstr is None ==> add_problem(builder, cstr) == Some("null string pointer"@)
            &&& cstr is Some && !vstd::utf8::valid_utf8(cstr->0) ==> add_problem(builder, cstr)
                == Some("invalid UTF-8: "@ + stdtext::utf8_error(cstr->0))
        }),
        profile_problem(None) == Some("null profile pointer"@),
        add_problem(None, cstr) == Some("null profile pointer"@),
        status_of(None) == 0,
        forall|problem: Seq<char>| #[trigger] status_of(Some(problem)) == -1,
{
}

/// A path that is added stands after those before it, which stay as they are, and nothing
/// else of the profile changes.
pub proof fn law_path_added(before: Profile, after: Profile, path: Seq<u8>)
    ensures
        read_path_added(before, after, path) ==> {
            let n = before.read_paths@.len();
            &&& after.read_paths@.len() == n + 1
            &&& after.read_paths@[n as int].bytes@ == path
            &&& forall|i: int|
                0 <= i < n ==> (#[trigger] after.read_paths@[i]).bytes@
                    == before.read_paths@[i].bytes@
            &&& after.write_paths == before.write_paths
            &&& limits_kept(before, after)
        },
        write_path_added(before, after, path) ==> {
            let n = before.write_paths@.len();
            &&& after.write_paths@.len() == n + 1
            &&& after.write_paths@[n as int].bytes@ == path
            &&& forall|i: int|
                0 <= i < n ==> (#[trigger] after.write_paths@[i]).bytes@
                    == before.write_paths@[i].bytes@
            &&& after.read_paths == before.read_paths
            &&& limits_kept(before, after)
        },
{
    if read_path_added(before, after, path) {
        lemma_pushed(before.read_paths@, after.read_paths@, path);
    }
    if write_path_added(before, after, path) {
        lemma_pushed(before.write_paths@, after.write_paths@, path);
    }
}

/// Whether two profiles limit the same.
pub open spec fn limits_kept(before: Profile, after: Profile) -> bool {
    &&& after.max_memory_mb == before.max_memory_mb
    &&& after.max_cpu_pct == before.max_cpu_pct
    &&& after.max_pids == before.max_pids
    &&& after.max_file_size_mb == before.max_file_size_mb
    &&& after.use_netns == before.use_netns
}

/// A list with one more path at its end.
proof fn lemma_pushed(before: Seq<PathBuf>, after: Seq<PathBuf>, path: Seq<u8>)
    requires
        path::path_bytes(after) == path::path_bytes(before).push(path),
    ensures
        after.len() == before.len() + 1,
        after[before.len() as int].bytes@ == path,
        forall|i: int| 0 <= i < before.len() ==> (#[trigger] after[i]).bytes@ == before[i].bytes@,
{
    let bytes = path::path_bytes(after);
    assert(bytes.len() == after.len());
    assert(bytes[before.len() as int] == after[before.len() as int].bytes@);
    assert forall|i: int| 0 <= i < before.len() implies (#[trigger] after[i]).bytes@
        == before[i].bytes@ by {
        assert(bytes[i] == after[i].bytes@);
        assert(path::path_bytes(before)[i] == before[i].bytes@);
    }
}

/// On Linux the paths are restricted first, then the system calls, then the resources;
/// elsewhere only the resources are. Each failure is reported by what failed.
pub proof fn law_apply_order()
    ensures
        applied(true, seq![]) == ApplyStep::Landlock,
        applied(true, seq![true]) == ApplyStep::Seccomp,
        applied(true, seq![true, true]) == ApplyStep::Rlimit,
        applied(true, seq![true, true, true]) == ApplyStep::Finished(0),
        applied(false, seq![]) == ApplyStep::Rlimit,
        applied(false, seq![true]) == ApplyStep::Finished(0),
        step_prefix(ApplyStep::Landlock) == "landlock: "@,
        step_prefix(ApplyStep::Seccomp) == "seccomp: "@,
        step_prefix(ApplyStep::Rlimit) == "rlimit: "@,
{
    let one = seq![true];
    let two = seq![true, true];
    let three = seq![true, true, true];
    assert(one.drop_last() =~= Seq::<bool>::empty());
    assert(two.drop_last() =~= one);
    assert(three.drop_last() =~= two);
    assert(applied(true, Seq::<bool>::empty()) == ApplyStep::Landlock);
    assert(applied(true, one) == ApplyStep::Seccomp);
    assert(applied(true, two) == ApplyStep::Rlimit);
    assert(applied(false, Seq::<bool>::empty()) == ApplyStep::Rlimit);
}

/// A setter sets its own field to what it is given, 0 or not and whatever the field held, and
/// leaves every other field as it is.
pub proof fn law_setters(p: Profile, mb: u64, n: u32, enabled: bool)
    ensures
        ({
            let set = with_max_memory_mb(Some(p), mb)->0;
            &&& with_max_memory_mb(Some(p), mb) is Some
            &&& set.max_memory_mb == mb
            &&& (Profile { max_memory_mb: p.max_memory_mb, ..set }) == p
        }),
        ({
            let set = with_max_cpu_pct(Some(p), n)->0;
            &&& with_max_cpu_pct(Some(p), n) is Some
            &&& set.max_cpu_pct == n
            &&& (Profile { max_cpu_pct: p.max_cpu_pct, ..set }) == p
        }),
        ({
            let set = with_max_pids(Some(p), n)->0;
            &&& with_max_pids(Some(p), n) is Some
            &&& set.max_pids == n
            &&& (Profile { max_pids: p.max_pids, ..set }) == p
        }),
        ({
            let set = with_max_file_size_mb(Some(p), mb)->0;
            &&& with_max_file_size_mb(Some(p), mb) is Some
            &&& set.max_file_size_mb == mb
            &&& (Profile { max_file_size_mb: p.max_file_size_mb, ..set }) == p
        }),
        ({
            let set = with_use_netns(Some(p), enabled)->0;
            &&& with_use_netns(Some(p), enabled) is Some
            &&& set.use_netns == enabled
            &&& (Profile { use_netns: p.use_netns, ..set }) == p
        }),
{
}

/// Nothing is set in a profile that was freed.
pub proof fn law_setters_on_freed(mb: u64, n: u32, enabled: bool)
    ensures
        with_max_memory_mb(None, mb) is None,
        with_max_cpu_pct(None, n) is None,
        with_max_pids(None, n) is None,
        with_max_file_size_mb(None, mb) is None,
        with_use_netns(None, enabled) is None,
{
}

/// A C string is its bytes, if there is one.
pub proof fn law_cstr_bytes(cstr: &[u8])
    ensures
        cstr_bytes(Some(cstr)) == Some(cstr@),
        cstr_bytes(None) is None,
{
}

} // verus!
