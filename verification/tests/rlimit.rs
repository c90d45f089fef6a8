use arapuca::config::Profile;
use arapuca::error::Error;
use arapuca::rlimit::{
    after_read, after_set, apply, apply_from_env, limits, parse_env_u64, set_rlimit, EnvStep,
    Limit, Resource,
};

fn limit(resource: Resource, value: u64) -> Limit {
    Limit { resource, soft: value, hard: value }
}

#[test]
fn zero_limits_are_skipped() {
    let profile = Profile::default();
    assert!(apply(&profile, 0, Ok(())).is_ok());
    assert_eq!(apply(&profile, 0, Ok(())), Ok(None));
    assert!(limits(&profile).is_empty());
}

#[test]
fn parse_env_missing() {
    assert!(parse_env_u64("ARAPUCA_TEST_NONEXISTENT", None).unwrap().is_none());
}

#[test]
fn limits_of_a_profile() {
    let mut profile = Profile::default();
    profile.max_memory_mb = 3;
    profile.max_pids = 7;
    profile.max_file_size_mb = 2;
    // A share of CPU time is not a limit of the process.
    profile.max_cpu_pct = 50;
    assert_eq!(
        limits(&profile),
        vec![
            limit(Resource::As, 3 * 1024 * 1024),
            limit(Resource::Nproc, 7),
            limit(Resource::Fsize, 2 * 1024 * 1024),
        ]
    );
    profile.max_memory_mb = 0;
    profile.max_file_size_mb = 0;
    assert_eq!(limits(&profile), vec![limit(Resource::Nproc, 7)]);
}

#[test]
fn limits_cannot_be_raised() {
    let mut profile = Profile::default();
    profile.max_memory_mb = 17_592_186_044_415;
    profile.max_pids = u32::MAX;
    for set in limits(&profile) {
        assert_eq!(set.soft, set.hard);
        assert!(set.soft > 0);
    }
}

#[test]
fn a_limit_that_cannot_be_set_is_an_error() {
    assert!(set_rlimit(limit(Resource::As, 1), Ok(())).is_ok());
    assert_eq!(
        set_rlimit(limit(Resource::Cpu, 1), Err("Operation not permitted")).unwrap_err(),
        Error::Rlimit("RLIMIT_CPU: Operation not permitted".to_string())
    );
}

#[test]
fn values_of_limit_variables() {
    let read = |text| parse_env_u64("ARAPUCA_RLIMIT_AS", Some(text));
    assert_eq!(read("").unwrap(), None);
    assert_eq!(read("0").unwrap(), None);
    assert_eq!(read("+12").unwrap(), Some(12));
    assert_eq!(read("0007").unwrap(), Some(7));
    assert_eq!(read("18446744073709551615").unwrap(), Some(u64::MAX));
    for text in ["18446744073709551616", "-1", " 1", "1 ", "x", "+", "0x10", "\u{661}"] {
        let reason = text.parse::<u64>().unwrap_err();
        assert_eq!(
            read(text).unwrap_err(),
            Error::Rlimit(format!("parse ARAPUCA_RLIMIT_AS: {reason}"))
        );
    }
}

#[test]
fn a_limit_reads_back() {
    for n in [1u64, 9, 10, 99, 100, 1_048_576, u64::MAX - 1, u64::MAX] {
        let text = n.to_string();
        assert_eq!(parse_env_u64("X", Some(&text)).unwrap(), Some(n));
    }
}

/// Applies a profile where one resource may be refused, and gives what was set and how it
/// ended.
fn apply_profile(profile: &Profile, refused: Option<Resource>) -> (Vec<Limit>, Result<(), Error>) {
    let mut set = vec![];
    let mut tried = 0;
    let mut last = Ok(());
    loop {
        match apply(profile, tried, last) {
            Ok(Some(limit)) => {
                last = if refused == Some(limit.resource) {
                    Err("no")
                } else {
                    set.push(limit);
                    Ok(())
                };
                tried += 1;
            }
            Ok(None) => return (set, Ok(())),
            Err(error) => return (set, Err(error)),
        }
    }
}

#[test]
fn limits_of_a_profile_fail_closed() {
    let mut profile = Profile::default();
    profile.max_memory_mb = 3;
    profile.max_pids = 7;
    profile.max_file_size_mb = 2;
    let all = limits(&profile);
    assert_eq!(apply_profile(&profile, None), (all.clone(), Ok(())));
    let names = ["RLIMIT_AS", "RLIMIT_NPROC", "RLIMIT_FSIZE"];
    for (i, name) in names.iter().enumerate() {
        let (set, end) = apply_profile(&profile, Some(all[i].resource));
        assert_eq!(set, all[..i]);
        assert_eq!(end, Err(Error::Rlimit(format!("{name}: no"))));
    }
    // What a profile does not limit cannot fail.
    assert_eq!(apply_profile(&profile, Some(Resource::Cpu)), (all, Ok(())));
}

/// Runs the limits of an environment, and gives what was set and how it ended.
fn run(values: [Option<&str>; 4], refused: Option<Resource>) -> (Vec<Limit>, Result<(), Error>) {
    let mut set = vec![];
    let mut step = apply_from_env();
    loop {
        let next = match step {
            EnvStep::Read(resource) => {
                let value = match resource {
                    Resource::As => values[0],
                    Resource::Nproc => values[1],
                    Resource::Cpu => values[2],
                    Resource::Fsize => values[3],
                };
                after_read(resource, value)
            }
            EnvStep::Apply(limit) => {
                if refused == Some(limit.resource) {
                    after_set(limit, Err("no"))
                } else {
                    set.push(limit);
                    after_set(limit, Ok(()))
                }
            }
            EnvStep::Done => return (set, Ok(())),
        };
        match next {
            Ok(following) => step = following,
            Err(error) => return (set, Err(error)),
        }
    }
}

#[test]
fn limits_of_the_environment_in_order() {
    let (set, end) = run([Some("1"), Some("2"), Some("3"), Some("4")], None);
    assert!(end.is_ok());
    assert_eq!(
        set,
        vec![
            limit(Resource::As, 1),
            limit(Resource::Nproc, 2),
            limit(Resource::Cpu, 3),
            limit(Resource::Fsize, 4),
        ]
    );
    let (set, end) = run([None, Some("0"), Some("3"), Some("")], None);
    assert!(end.is_ok());
    assert_eq!(set, vec![limit(Resource::Cpu, 3)]);
}

#[test]
fn limits_of_the_environment_fail_closed() {
    let (set, end) = run([Some("1"), Some("two"), Some("3"), None], None);
    assert_eq!(
        end.unwrap_err().message(),
        "parse ARAPUCA_RLIMIT_NPROC: invalid digit found in string"
    );
    assert_eq!(set, vec![limit(Resource::As, 1)]);
    let (set, end) = run([Some("1"), None, Some("3"), Some("4")], Some(Resource::Fsize));
    assert_eq!(end.unwrap_err(), Error::Rlimit("RLIMIT_FSIZE: no".to_string()));
    assert_eq!(set, vec![limit(Resource::As, 1), limit(Resource::Cpu, 3)]);
}

#[test]
fn names_of_limits() {
    let named = [
        (Resource::As, "RLIMIT_AS"),
        (Resource::Nproc, "RLIMIT_NPROC"),
        (Resource::Cpu, "RLIMIT_CPU"),
        (Resource::Fsize, "RLIMIT_FSIZE"),
    ];
    for (resource, name) in named {
        assert_eq!(resource.name(), name);
        assert_eq!(resource.variable(), format!("ARAPUCA_{name}"));
    }
}
