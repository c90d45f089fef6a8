//! Resource limits: address space, number of processes, CPU time and file size.

use vstd::prelude::*;

use crate::config::Profile;
use crate::error::{Error, ErrorView};
use crate::stdtext;
use crate::stdtext::parse_u64;
use crate::text;
use crate::text::joined;

verus! {

/// A resource that can be limited.
#[derive(Clone, Copy, Debug, PartialEq, Eq, Structural)]
pub enum Resource {
    /// Bytes of address space.
    As,
    /// Number of processes.
    Nproc,
    /// Seconds of CPU time.
    Cpu,
    /// Bytes of a file.
    Fsize,
}

impl Resource {
    /// The name of the limit.
    pub open spec fn name_text(self) -> Seq<char> {
        match self {
            Resource::As => "RLIMIT_AS"@,
            Resource::Nproc => "RLIMIT_NPROC"@,
            Resource::Cpu => "RLIMIT_CPU"@,
            Resource::Fsize => "RLIMIT_FSIZE"@,
        }
    }

    /// The name of the limit.
    pub fn name(self) -> (name: &'static str)
        ensures
            name@ == self.name_text(),
    {
        match self {
            Resource::As => "RLIMIT_AS",
            Resource::Nproc => "RLIMIT_NPROC",
            Resource::Cpu => "RLIMIT_CPU",
            Resource::Fsize => "RLIMIT_FSIZE",
        }
    }

    /// The environment variable that carries the limit.
    pub open spec fn variable_text(self) -> Seq<char> {
        match self {
            Resource::As => "ARAPUCA_RLIMIT_AS"@,
            Resource::Nproc => "ARAPUCA_RLIMIT_NPROC"@,
            Resource::Cpu => "ARAPUCA_RLIMIT_CPU"@,
            Resource::Fsize => "ARAPUCA_RLIMIT_FSIZE"@,
        }
    }

    /// The environment variable that carries the limit.
    pub fn variable(self) -> (name: &'static str)
        ensures
            name@ == self.variable_text(),
    {
        match self {
            Resource::As => "ARAPUCA_RLIMIT_AS",
            Resource::Nproc => "ARAPUCA_RLIMIT_NPROC",
            Resource::Cpu => "ARAPUCA_RLIMIT_CPU",
            Resource::Fsize => "ARAPUCA_RLIMIT_FSIZE",
        }
    }
}

/// A limit to set. The soft and the hard limit are the same, so that the process cannot
/// raise it.
#[derive(Clone, Copy, Debug, PartialEq, Eq, Structural)]
pub struct Limit {
    pub resource: Resource,
    pub soft: u64,
    pub hard: u64,
}

/// The limit of a resource to `value`, soft and hard.
pub open spec fn limit_to(resource: Resource, value: u64) -> Limit {
    Limit { resource, soft: value, hard: value }
}

/// The limit of a resource to `value`; none where it is 0.
pub open spec fn limit_unless_zero(resource: Resource, value: int) -> Seq<Limit> {
    if value > 0 {
        seq![limit_to(resource, value as u64)]
    } else {
        seq![]
    }
}

/// The limits of a profile, in the order they are set in.
pub open spec fn profile_limits(profile: Profile) -> Seq<Limit> {
    limit_unless_zero(Resource::As, profile.max_memory_mb * 1024 * 1024) + limit_unless_zero(
        Resource::Nproc,
        profile.max_pids as int,
    ) + limit_unless_zero(Resource::Fsize, profile.max_file_size_mb * 1024 * 1024)
}

/// The limits of a profile, in the order to set them in. A limit of 0 is none.
pub fn limits(profile: &Profile) -> (limits: Vec<Limit>)
    requires
        profile.max_memory_mb * 1024 * 1024 <= u64::MAX,
        profile.max_file_size_mb * 1024 * 1024 <= u64::MAX,
    ensures
        limits@ == profile_limits(*profile),
{
    let mut limits: Vec<Limit> = Vec::new();
    if profile.max_memory_mb > 0 {
        let bytes = profile.max_memory_mb * 1024 * 1024;
        limits.push(Limit { resource: Resource::As, soft: bytes, hard: bytes });
    }
    if profile.max_pids > 0 {
        let pids = profile.max_pids as u64;
        limits.push(Limit { resource: Resource::Nproc, soft: pids, hard: pids });
    }
    if profile.max_file_size_mb > 0 {
        let bytes = profile.max_file_size_mb * 1024 * 1024;
        limits.push(Limit { resource: Resource::Fsize, soft: bytes, hard: bytes });
    }
    assert(limits@ =~= profile_limits(*profile));
    limits
}

/// What setting a limit came to: nothing, or an error that names the limit and the reason.
pub fn set_rlimit(limit: Limit, outcome: Result<(), &str>) -> (done: Result<(), Error>)
    ensures
        outcome is Ok ==> done is Ok,
        outcome matches Err(reason) ==> (done matches Err(error) && error@ == ErrorView::Rlimit(
            limit.resource.name_text() + ": "@ + reason@,
        )),
{
    match outcome {
        Ok(_) => Ok(()),
        Err(reason) => Err(
            Error::Rlimit(joined(joined(limit.resource.name(), ": ").as_str(), reason)),
        ),
    }
}

/// What applying a profile does next, once it tried the first `tried` of the profile's
/// limits and the last of these came to `last`: the next limit to set, or none once all of
/// them were set. A limit that could not be set ends it with an error.
pub open spec fn profile_step(
    profile: Profile,
    tried: nat,
    last: Result<(), Seq<char>>,
) -> Result<Option<Limit>, ErrorView> {
    let all = profile_limits(profile);
    match last {
        Ok(_) => Ok(
            if tried < all.len() {
                Some(all[tried as int])
            } else {
                None
            },
        ),
        Err(reason) => Err(
            ErrorView::Rlimit(all[tried - 1].resource.name_text() + ": "@ + reason),
        ),
    }
}

/// Applies the limits of a profile to the current process, one by one: says which limit to
/// set next, none once every limit is set, or the error that ends it. `tried` is how many
/// limits were tried, and `last` is what the last of them came to: nothing, or the reason
/// that it could not be set.
pub fn apply(profile: &Profile, tried: usize, last: Result<(), &str>) -> (step: Result<
    Option<Limit>,
    Error,
>)
    requires
        profile.max_memory_mb * 1024 * 1024 <= u64::MAX,
        profile.max_file_size_mb * 1024 * 1024 <= u64::MAX,
        tried <= profile_limits(*profile).len(),
        last is Err ==> tried > 0,
    ensures
        match profile_step(*profile, tried as nat, text::outcome(last)) {
            Ok(next) => step == Ok::<Option<Limit>, Error>(next),
            Err(view) => step matches Err(error) && error@ == view,
        },
{
    let all = limits(profile);
    if let Err(reason) = last {
        return match set_rlimit(all[tried - 1], Err(reason)) {
            Ok(_) => Ok(None),
            Err(error) => Err(error),
        };
    }
    if tried < all.len() {
        Ok(Some(all[tried]))
    } else {
        Ok(None)
    }
}

/// The limit that the value of a variable asks for: none without a value, none for 0.
pub open spec fn limit_value(value: Option<Seq<char>>) -> Option<u64> {
    match value {
        Some(text) => match stdtext::number_of(text) {
            Some(n) => if 0 < n <= u64::MAX {
                Some(n as u64)
            } else {
                None
            },
            None => None,
        },
        None => None,
    }
}

/// Whether the value of a variable is no limit at all: there is one, and it is no number.
pub open spec fn limit_malformed(value: Option<Seq<char>>) -> bool {
    value matches Some(text) && text.len() > 0 && !(stdtext::number_of(text) matches Some(n) && n
        <= u64::MAX)
}

/// Reads a limit from the value of the variable `name`.
pub fn parse_env_u64(name: &str, value: Option<&str>) -> (limit: Result<Option<u64>, Error>)
    ensures
        limit is Err <==> limit_malformed(text::given(value)),
        limit matches Ok(n) ==> n == limit_value(text::given(value)),
        limit matches Err(error) ==> error@ == ErrorView::Rlimit(
            "parse "@ + name@ + ": "@ + stdtext::number_error(value->0@),
        ),
{
    match value {
        Some(text) => {
            if text.is_empty() {
                return Ok(None);
            }
            match parse_u64(text) {
                Ok(n) => {
                    if n > 0 {
                        Ok(Some(n))
                    } else {
                        Ok(None)
                    }
                },
                Err(reason) => {
                    let what = joined(joined("parse ", name).as_str(), ": ");
                    Err(Error::Rlimit(joined(what.as_str(), reason.as_str())))
                },
            }
        },
        None => Ok(None),
    }
}

/// What to do next to apply the limits of the environment.
#[derive(Clone, Copy, Debug, PartialEq, Eq, Structural)]
pub enum EnvStep {
    /// Read the variable of a resource.
    Read(Resource),
    /// Set a limit.
    Apply(Limit),
    /// Every variable was read, and what it asked for was set.
    Done,
}

/// What comes after a resource is dealt with.
pub open spec fn step_after(resource: Resource) -> EnvStep {
    match resource {
        Resource::As => EnvStep::Read(Resource::Nproc),
        Resource::Nproc => EnvStep::Read(Resource::Cpu),
        Resource::Cpu => EnvStep::Read(Resource::Fsize),
        Resource::Fsize => EnvStep::Done,
    }
}

/// Starts to apply the limits of the environment.
pub fn apply_from_env() -> (step: EnvStep)
    ensures
        step == EnvStep::Read(Resource::As),
{
    EnvStep::Read(Resource::As)
}

fn following(resource: Resource) -> (step: EnvStep)
    ensures
        step == step_after(resource),
{
    match resource {
        Resource::As => EnvStep::Read(Resource::Nproc),
        Resource::Nproc => EnvStep::Read(Resource::Cpu),
        Resource::Cpu => EnvStep::Read(Resource::Fsize),
        Resource::Fsize => EnvStep::Done,
    }
}

/// What the value of a resource's variable asks for: to set a limit, or to go on.
pub open spec fn step_for(resource: Resource, value: Option<Seq<char>>) -> EnvStep {
    match limit_value(value) {
        Some(n) => EnvStep::Apply(limit_to(resource, n)),
        None => step_after(resource),
    }
}

/// Goes on with the value of a resource's variable.
pub fn after_read(resource: Resource, value: Option<&str>) -> (step: Result<EnvStep, Error>)
    ensures
        step is Err <==> limit_malformed(text::given(value)),
        step matches Ok(next) ==> next == step_for(resource, text::given(value)),
        step matches Err(error) ==> error@ == ErrorView::Rlimit(
            "parse "@ + resource.variable_text() + ": "@ + stdtext::number_error(value->0@),
        ),
{
    match parse_env_u64(resource.variable(), value) {
        Ok(Some(n)) => Ok(EnvStep::Apply(Limit { resource, soft: n, hard: n })),
        Ok(None) => Ok(following(resource)),
        Err(error) => Err(error),
    }
}

/// Goes on with what setting a limit came to.
pub fn after_set(limit: Limit, outcome: Result<(), &str>) -> (step: Result<EnvStep, Error>)
    ensures
        outcome is Ok ==> step == Ok::<EnvStep, Error>(step_after(limit.resource)),
        outcome matches Err(reason) ==> (step matches Err(error) && error@ == ErrorView::Rlimit(
            limit.resource.name_text() + ": "@ + reason@,
        )),
{
    match set_rlimit(limit, outcome) {
        Ok(_) => Ok(following(limit.resource)),
        Err(error) => Err(error),
    }
}

/// A positive limit written in decimal is the limit that is read back.
pub proof fn law_limit_reads_back(n: u64)
    requires
        n > 0,
    ensures
        limit_value(Some(text::decimal(n as nat))) == Some(n),
        !limit_malformed(Some(text::decimal(n as nat))),
{
    stdtext::law_decimal_reads_back(n as nat);
}

/// The limits of a profile cannot be raised by the process: the soft and the hard limit
/// are the same, and neither is 0.
pub proof fn law_limits_are_hard(profile: Profile)
    requires
        profile.max_memory_mb * 1024 * 1024 <= u64::MAX,
        profile.max_file_size_mb * 1024 * 1024 <= u64::MAX,
    ensures
        forall|i: int|
            0 <= i < profile_limits(profile).len() ==> 0 < (#[trigger] profile_limits(
                profile,
            )[i]).soft == profile_limits(profile)[i].hard,
{
}

/// A profile without limits sets none.
pub proof fn law_zero_limits_are_skipped(profile: Profile)
    requires
        profile.is_blank(),
    ensures
        profile_limits(profile).len() == 0,
{
}

/// What applying a profile comes to from the limit after the first `tried` on, where
/// `refused` gives the reason of each limit that cannot be set: the limits that are set, and
/// the error that ends it, if any.
pub open spec fn profile_run(
    profile: Profile,
    refused: spec_fn(Limit) -> Option<Seq<char>>,
    tried: nat,
) -> (Seq<Limit>, Option<ErrorView>)
    decreases profile_limits(profile).len() - tried,
{
    match profile_step(profile, tried, Ok(())) {
        Ok(Some(limit)) => if tried >= profile_limits(profile).len() {
            (seq![], None)
        } else {
            match refused(limit) {
                Some(reason) => match profile_step(profile, tried + 1, Err(reason)) {
                    Ok(_) => (seq![], None),
                    Err(error) => (seq![], Some(error)),
                },
                None => {
                    let (rest, end) = profile_run(profile, refused, tried + 1);
                    (seq![limit] + rest, end)
                },
            }
        },
        Ok(None) => (seq![], None),
        Err(error) => (seq![], Some(error)),
    }
}

/// Applying a profile fails closed. It succeeds exactly if every limit of the profile can be
/// set, and then all of them are, in order. Else the first one that cannot be set ends it
/// with an error that names it: the limits before it stay set, and none after it is tried.
pub proof fn law_profile_limits_fail_closed(
    profile: Profile,
    refused: spec_fn(Limit) -> Option<Seq<char>>,
)
    ensures
        ({
            let all = profile_limits(profile);
            let (set, end) = profile_run(profile, refused, 0);
            &&& set.len() <= all.len()
            &&& set == all.take(set.len() as int)
            &&& forall|i: int| 0 <= i < set.len() ==> refused(#[trigger] all[i]) is None
            &&& end is None <==> set.len() == all.len()
            &&& end matches Some(error) ==> {
                let failed = all[set.len() as int];
                refused(failed) matches Some(reason) && error == ErrorView::Rlimit(
                    failed.resource.name_text() + ": "@ + reason,
                )
            }
        }),
{
    lemma_profile_run(profile, refused, 0);
    let all = profile_limits(profile);
    assert(all.skip(0) == all);
}

/// What applying a profile comes to from some limit on.
proof fn lemma_profile_run(
    profile: Profile,
    refused: spec_fn(Limit) -> Option<Seq<char>>,
    tried: nat,
)
    requires
        tried <= profile_limits(profile).len(),
    ensures
        ({
            let rest = profile_limits(profile).skip(tried as int);
            let (set, end) = profile_run(profile, refused, tried);
            &&& set.len() <= rest.len()
            &&& set == rest.take(set.len() as int)
            &&& forall|i: int| 0 <= i < set.len() ==> refused(#[trigger] rest[i]) is None
            &&& end is None <==> set.len() == rest.len()
            &&& end matches Some(error) ==> {
                let failed = rest[set.len() as int];
                refused(failed) matches Some(reason) && error == ErrorView::Rlimit(
                    failed.resource.name_text() + ": "@ + reason,
                )
            }
        }),
    decreases profile_limits(profile).len() - tried,
{
    let all = profile_limits(profile);
    let rest = all.skip(tried as int);
    if tried < all.len() {
        let limit = all[tried as int];
        assert(rest[0] == limit);
        if refused(limit) is None {
            lemma_profile_run(profile, refused, tried + 1);
            let after = all.skip(tried as int + 1);
            let (set, end) = profile_run(profile, refused, tried + 1);
            assert(rest == seq![limit] + after);
            assert(seq![limit] + set =~= rest.take(1 + set.len() as int));
            assert forall|i: int| 0 <= i < 1 + set.len() implies refused(
                #[trigger] rest[i],
            ) is None by {
                if i > 0 {
                    assert(rest[i] == after[i - 1]);
                }
            }
        }
    }
}

/// How many resources are left from a resource on.
pub open spec fn resources_left(resource: Resource) -> nat {
    match resource {
        Resource::As => 4,
        Resource::Nproc => 3,
        Resource::Cpu => 2,
        Resource::Fsize => 1,
    }
}

/// The limit that a variable asks for, as a list of one or none.
pub open spec fn asked(
    resource: Resource,
    values: spec_fn(Resource) -> Option<Seq<char>>,
) -> Seq<Limit> {
    match limit_value(values(resource)) {
        Some(n) => seq![limit_to(resource, n)],
        None => seq![],
    }
}

/// The limits that are set from a resource on, given the values of the variables and whether
/// each limit can be set; and whether applying them succeeds.
pub open spec fn env_limits(
    resource: Resource,
    values: spec_fn(Resource) -> Option<Seq<char>>,
    settable: spec_fn(Limit) -> bool,
) -> (Seq<Limit>, bool)
    decreases resources_left(resource),
{
    if limit_malformed(values(resource)) {
        (seq![], false)
    } else {
        let here = asked(resource, values);
        if here.len() > 0 && !settable(here[0]) {
            (seq![], false)
        } else {
            match step_after(resource) {
                EnvStep::Read(next) => {
                    let (rest, done) = env_limits(next, values, settable);
                    (here + rest, done)
                },
                _ => (here, true),
            }
        }
    }
}

/// Applying the limits of the environment fails closed: it succeeds only when no variable is
/// malformed and every limit that one asks for was set, and then all of them were, in order.
pub proof fn law_env_limits_fail_closed(
    values: spec_fn(Resource) -> Option<Seq<char>>,
    settable: spec_fn(Limit) -> bool,
)
    ensures
        ({
            let (set, done) = env_limits(Resource::As, values, settable);
            let all = asked(Resource::As, values) + asked(Resource::Nproc, values) + asked(
                Resource::Cpu,
                values,
            ) + asked(Resource::Fsize, values);
            &&& done <==> (forall|r: Resource| !limit_malformed(#[trigger] values(r))) && (forall|
                i: int,
            |
                0 <= i < all.len() ==> settable(#[trigger] all[i]))
            &&& done ==> set == all
        }),
{
    reveal_with_fuel(env_limits, 5);
    let all = asked(Resource::As, values) + asked(Resource::Nproc, values) + asked(
        Resource::Cpu,
        values,
    ) + asked(Resource::Fsize, values);
    let (set, done) = env_limits(Resource::As, values, settable);
    if done {
        assert(set =~= all);
    }
    lemma_asked(Resource::As, seq![], values, settable);
    lemma_asked(Resource::Nproc, asked(Resource::As, values), values, settable);
    lemma_asked(
        Resource::Cpu,
        asked(Resource::As, values) + asked(Resource::Nproc, values),
        values,
        settable,
    );
    lemma_asked(
        Resource::Fsize,
        asked(Resource::As, values) + asked(Resource::Nproc, values) + asked(Resource::Cpu, values),
        values,
        settable,
    );
    assert(Seq::<Limit>::empty() + asked(Resource::As, values) =~= asked(Resource::As, values));
}

/// Whether the limits of a list that goes on with one more variable can all be set.
proof fn lemma_asked(
    resource: Resource,
    before: Seq<Limit>,
    values: spec_fn(Resource) -> Option<Seq<char>>,
    settable: spec_fn(Limit) -> bool,
)
    ensures
        ({
            let all = before + asked(resource, values);
            (forall|i: int| 0 <= i < all.len() ==> settable(#[trigger] all[i])) <==> (forall|i: int|
                0 <= i < before.len() ==> settable(#[trigger] before[i])) && (limit_value(
                values(resource),
            ) matches Some(n) ==> settable(limit_to(resource, n)))
        }),
{
    let all = before + asked(resource, values);
    if forall|i: int| 0 <= i < all.len() ==> settable(#[trigger] all[i]) {
        assert forall|i: int| 0 <= i < before.len() implies settable(#[trigger] before[i]) by {
            assert(all[i] == before[i]);
        }
        if limit_value(values(resource)) is Some {
            assert(all[before.len() as int] == asked(resource, values)[0]);
        }
    }
}

/// How many limits of a resource a list holds.
pub open spec fn count_of(limits: Seq<Limit>, resource: Resource) -> nat
    decreases limits.len(),
{
    if limits.len() == 0 {
        0
    } else {
        count_of(limits.drop_last(), resource) + (if limits.last().resource == resource {
            1nat
        } else {
            0
        })
    }
}

/// Whether a list limits a resource to `value`, soft and hard, exactly once; and not at all
/// where that is 0.
pub open spec fn limits_to(limits: Seq<Limit>, resource: Resource, value: int) -> bool {
    &&& count_of(limits, resource) == if value > 0 {
        1nat
    } else {
        0
    }
    &&& forall|i: int|
        0 <= i < limits.len() && (#[trigger] limits[i]).resource == resource ==> limits[i].soft
            == value && limits[i].hard == value
}

/// Memory, processes and file size are limited each by its own field of a profile, in bytes
/// or processes, whatever the other fields hold. CPU time is not.
pub proof fn law_each_limit_on_its_own(profile: Profile)
    requires
        profile.max_memory_mb * 1024 * 1024 <= u64::MAX,
        profile.max_file_size_mb * 1024 * 1024 <= u64::MAX,
    ensures
        limits_to(profile_limits(profile), Resource::As, profile.max_memory_mb * 1_048_576),
        limits_to(profile_limits(profile), Resource::Nproc, profile.max_pids as int),
        limits_to(profile_limits(profile), Resource::Fsize, profile.max_file_size_mb * 1_048_576),
        limits_to(profile_limits(profile), Resource::Cpu, 0),
        profile_limits(profile).len() <= 3,
{
    lemma_profile_count(profile, Resource::As);
    lemma_profile_count(profile, Resource::Nproc);
    lemma_profile_count(profile, Resource::Fsize);
    lemma_profile_count(profile, Resource::Cpu);
}

/// How many limits of a resource a profile has.
proof fn lemma_profile_count(profile: Profile, r: Resource)
    ensures
        count_of(profile_limits(profile), r) == (if profile.max_memory_mb > 0 && r == Resource::As {
            1nat
        } else {
            0
        }) + (if profile.max_pids > 0 && r == Resource::Nproc {
            1nat
        } else {
            0
        }) + (if profile.max_file_size_mb > 0 && r == Resource::Fsize {
            1nat
        } else {
            0
        }),
{
    let memory = limit_unless_zero(Resource::As, profile.max_memory_mb * 1024 * 1024);
    let pids = limit_unless_zero(Resource::Nproc, profile.max_pids as int);
    let size = limit_unless_zero(Resource::Fsize, profile.max_file_size_mb * 1024 * 1024);
    assert(profile_limits(profile) =~= memory + pids + size);
    lemma_count_sum(memory, pids, r);
    lemma_count_sum(memory + pids, size, r);
    lemma_count_short(memory, r);
    lemma_count_short(pids, r);
    lemma_count_short(size, r);
}

/// Counts add up.
proof fn lemma_count_sum(a: Seq<Limit>, b: Seq<Limit>, r: Resource)
    ensures
        count_of(a + b, r) == count_of(a, r) + count_of(b, r),
    decreases b.len(),
{
    if b.len() == 0 {
        assert(a + b == a);
    } else {
        lemma_count_sum(a, b.drop_last(), r);
        assert((a + b).drop_last() == a + b.drop_last());
        assert((a + b).last() == b.last());
    }
}

/// The count of a list of at most one limit.
proof fn lemma_count_short(limits: Seq<Limit>, r: Resource)
    requires
        limits.len() <= 1,
    ensures
        count_of(limits, r) == if limits.len() == 1 && limits[0].resource == r {
            1nat
        } else {
            0
        },
{
    if limits.len() == 1 {
        assert(limits.drop_last() =~= Seq::<Limit>::empty());
        assert(count_of(limits.drop_last(), r) == 0);
    }
}

/// The limits of a profile are set in the order memory, processes, file size.
pub proof fn law_limits_in_order(profile: Profile, i: int, j: int)
    requires
        0 <= i < j < profile_limits(profile).len(),
    ensures
        profile_limits(profile)[i].resource == Resource::As || (profile_limits(profile)[i].resource
            == Resource::Nproc && profile_limits(profile)[j].resource == Resource::Fsize),
        profile_limits(profile)[j].resource == Resource::Nproc || profile_limits(
            profile,
        )[j].resource == Resource::Fsize,
{
}

/// A value that stands for a number above 0 that fits is the limit asked for. No value, an
/// empty one and one that stands for 0 ask for none. Every other value is malformed.
pub proof fn law_limit_values(value: Seq<char>)
    ensures
        stdtext::number_of(value) matches Some(n) ==> {
            &&& 0 < n <= u64::MAX ==> limit_value(Some(value)) == Some(n as u64)
                && !limit_malformed(Some(value))
            &&& n == 0 ==> limit_value(Some(value)) is None && !limit_malformed(Some(value))
            &&& n > u64::MAX ==> limit_malformed(Some(value))
        },
        stdtext::number_of(value) is None && value.len() > 0 ==> limit_malformed(Some(value)),
        value.len() == 0 ==> limit_value(Some(value)) is None && !limit_malformed(Some(value)),
        limit_value(None) is None && !limit_malformed(None),
{
    if value.len() == 0 {
        assert(!stdtext::is_digits(value));
    }
}

/// The variables are read in the order memory, processes, CPU time, file size, each once.
pub proof fn law_variables_in_order()
    ensures
        step_after(Resource::As) == EnvStep::Read(Resource::Nproc),
        step_after(Resource::Nproc) == EnvStep::Read(Resource::Cpu),
        step_after(Resource::Cpu) == EnvStep::Read(Resource::Fsize),
        step_after(Resource::Fsize) == EnvStep::Done,
        Resource::As.variable_text() == "ARAPUCA_RLIMIT_AS"@,
        Resource::Nproc.variable_text() == "ARAPUCA_RLIMIT_NPROC"@,
        Resource::Cpu.variable_text() == "ARAPUCA_RLIMIT_CPU"@,
        Resource::Fsize.variable_text() == "ARAPUCA_RLIMIT_FSIZE"@,
        Resource::As.name_text() == "RLIMIT_AS"@,
        Resource::Nproc.name_text() == "RLIMIT_NPROC"@,
        Resource::Cpu.name_text() == "RLIMIT_CPU"@,
        Resource::Fsize.name_text() == "RLIMIT_FSIZE"@,
{
}

/// A variable that asks for a limit has it set, soft and hard, for its own resource. One that
/// asks for none is passed over.
pub proof fn law_variable_asks(resource: Resource, value: Option<Seq<char>>)
    ensures
        limit_value(value) matches Some(n) ==> step_for(resource, value) == EnvStep::Apply(
            Limit { resource, soft: n, hard: n },
        ),
        limit_value(value) is None ==> step_for(resource, value) == step_after(resource),
        forall|n: u64| #[trigger]
            limit_to(resource, n) == (Limit { resource, soft: n, hard: n }),
{
}

} // verus!
