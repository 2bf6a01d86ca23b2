use std::time::Duration;
use upload_stick::command::{CommandCheck, Error, MapMode};
use upload_stick::lifecycle::{Action, Config, Cycle};
use upload_stick::orchestrator::{exit_code, next_phase, Phase, EXIT_LOOP_STOPPED, EXIT_SETUP_FAILED};

const LISTING: &str = "BYT;\n/dev/dm-4:30900224s:unknown:512:512:msdos:Unknown:;\n1:8192s:30900223s:30892032s:::lba;\n";

#[derive(Default, Debug, PartialEq)]
struct World {
    snapshot: bool,
    mapping: bool,
    mounted: bool,
}

fn config() -> Config {
    Config::standard(3, Duration::from_millis(10))
}

fn kind(a: &Action) -> &'static str {
    match a {
        Action::CreateSnapshot { .. } => "lvcreate",
        Action::ReadPartitionTable { .. } => "parted",
        Action::CreateMapping { .. } => "dmsetup create",
        Action::Mount { .. } => "mount",
        Action::Scan { .. } => "scan",
        Action::Unmount { .. } => "umount",
        Action::RemoveMapping { .. } => "dmsetup remove",
        Action::RemoveSnapshot { .. } => "lvremove",
        Action::Done => "done",
    }
}

fn failure() -> Error {
    Error::CommandNonZeroExitCode { code: 1, stdout: String::new(), stderr: "injected".to_string() }
}

/// Drives a cycle against a simulated system; the action named `fail` fails
/// the first time it runs. Gives the actions run, the system left and the result.
fn drive(mut cycle: Cycle, world: &mut World, fail: &str) -> (Vec<&'static str>, Result<(), Error>) {
    let mut log = Vec::new();
    let mut failed_once = false;
    loop {
        let action = cycle.next_action();
        let k = kind(&action);
        if let Action::Done = action {
            return (log, cycle.result());
        }
        log.push(k);
        if k == fail && !failed_once {
            failed_once = true;
            cycle.record(Err(failure()));
            continue;
        }
        let outcome: Result<String, Error> = match action {
            Action::CreateSnapshot { .. } => {
                world.snapshot = true;
                Ok(String::new())
            }
            Action::ReadPartitionTable { .. } => Ok(LISTING.to_string()),
            Action::CreateMapping { .. } if world.snapshot => {
                world.mapping = true;
                Ok(String::new())
            }
            Action::Mount { .. } if world.mapping => {
                world.mounted = true;
                Ok(String::new())
            }
            Action::Scan { .. } => Ok(String::new()),
            Action::Unmount { .. } if world.mounted => {
                world.mounted = false;
                Ok(String::new())
            }
            Action::RemoveMapping { .. } if world.mapping && !world.mounted => {
                world.mapping = false;
                Ok(String::new())
            }
            Action::RemoveSnapshot { .. } if world.snapshot && !world.mapping => {
                world.snapshot = false;
                Ok(String::new())
            }
            _ => Err(Error::CommandNonZeroExitCode { code: 5, stdout: String::new(), stderr: String::new() }),
        };
        cycle.record(outcome);
    }
}

#[test]
fn full_cycle_runs_every_step_in_order() {
    let mut world = World::default();
    let (log, result) = drive(Cycle::new(config()), &mut world, "");
    assert_eq!(
        log,
        vec!["lvcreate", "parted", "dmsetup create", "mount", "scan", "umount", "dmsetup remove", "lvremove"]
    );
    assert_eq!(result, Ok(()));
    assert_eq!(world, World::default());
}

#[test]
fn failure_before_mapping_leaves_no_snapshot() {
    let mut world = World::default();
    let (log, result) = drive(Cycle::new(config()), &mut world, "parted");
    assert_eq!(log, vec!["lvcreate", "parted", "umount", "dmsetup remove", "lvremove"]);
    assert_eq!(result, Err(failure()));
    assert_eq!(world, World::default());
}

#[test]
fn failure_after_mapping_before_mount_leaves_nothing() {
    let mut world = World::default();
    let (log, result) = drive(Cycle::new(config()), &mut world, "mount");
    assert_eq!(
        log,
        vec!["lvcreate", "parted", "dmsetup create", "mount", "umount", "dmsetup remove", "lvremove"]
    );
    assert_eq!(result, Err(failure()));
    assert_eq!(world, World::default());
}

#[test]
fn failure_at_any_step_leaves_nothing() {
    for fail in ["lvcreate", "parted", "dmsetup create", "mount", "scan", "umount", "dmsetup remove", "lvremove"] {
        let mut world = World::default();
        let (_, result) = drive(Cycle::new(config()), &mut world, fail);
        assert_eq!(result, Err(failure()), "failing {}", fail);
        assert_eq!(world, World::default(), "failing {}", fail);
    }
}

#[test]
fn unreadable_listing_tears_down() {
    let mut cycle = Cycle::new(config());
    cycle.record(Ok(String::new()));
    cycle.record(Ok("BYT;\n".to_string()));
    assert!(matches!(cycle.next_action(), Action::Unmount { check: CommandCheck::IgnoreOutput, .. }));
    cycle.record(Ok(String::new()));
    cycle.record(Ok(String::new()));
    cycle.record(Ok(String::new()));
    assert!(cycle.is_done());
    assert_eq!(cycle.result(), Err(Error::Partition1NotFound("BYT;\n".to_string())));
}

#[test]
fn startup_cleanup_reaps_leftovers() {
    let mut world = World { snapshot: true, mapping: true, mounted: true };
    let (log, result) = drive(Cycle::cleanup(config()), &mut world, "");
    assert_eq!(log, vec!["umount", "dmsetup remove", "lvremove"]);
    assert_eq!(result, Ok(()));
    assert_eq!(world, World::default());
}

#[test]
fn startup_cleanup_on_a_clean_system_succeeds() {
    let mut world = World::default();
    let (_, result) = drive(Cycle::cleanup(config()), &mut world, "");
    assert_eq!(result, Ok(()));
}

#[test]
fn signal_during_cleanup_is_kept() {
    let mut cycle = Cycle::cleanup(config());
    cycle.record(Err(Error::CommandTerminatedBySignal));
    cycle.record(Ok(String::new()));
    cycle.record(Ok(String::new()));
    assert!(cycle.is_done());
    assert_eq!(cycle.result(), Err(Error::CommandTerminatedBySignal));
}

#[test]
fn actions_carry_the_configured_names() {
    let mut cycle = Cycle::new(config());
    match cycle.next_action() {
        Action::CreateSnapshot { volume_group, origin, name } => {
            assert_eq!(volume_group, "data");
            assert_eq!(origin, "mass_storage_root");
            assert_eq!(name, "mass_storage_snap");
        }
        other => panic!("unexpected {:?}", other),
    }
    cycle.record(Ok(String::new()));
    match cycle.next_action() {
        Action::ReadPartitionTable { device } => assert_eq!(device, "/dev/data/mass_storage_snap"),
        other => panic!("unexpected {:?}", other),
    }
    cycle.record(Ok(LISTING.to_string()));
    match cycle.next_action() {
        Action::CreateMapping { name, table, mode } => {
            assert_eq!(mode, MapMode::ReadOnly);
            assert_eq!(name, "mass_storage_snap_partition");
            assert_eq!(table, "0 30892032 linear /dev/data/mass_storage_snap 8192");
        }
        other => panic!("unexpected {:?}", other),
    }
    cycle.record(Ok(String::new()));
    match cycle.next_action() {
        Action::Mount { device, mount_point } => {
            assert_eq!(device, "/dev/mapper/mass_storage_snap_partition");
            assert_eq!(mount_point, "/mnt");
        }
        other => panic!("unexpected {:?}", other),
    }
    cycle.record(Ok(String::new()));
    cycle.record(Ok(String::new()));
    cycle.record(Ok(String::new()));
    match cycle.next_action() {
        Action::RemoveMapping { name, check: CommandCheck::Retry { count, interval } } => {
            assert_eq!(name, "mass_storage_snap_partition");
            assert_eq!(count, 3);
            assert_eq!(interval, Duration::from_millis(10));
        }
        other => panic!("unexpected {:?}", other),
    }
}

#[test]
fn loop_phases_and_exit_codes() {
    assert_eq!(next_phase(Phase::Startup, true), Phase::Upload);
    assert_eq!(next_phase(Phase::Startup, false), Phase::SetupFailed);
    assert_eq!(next_phase(Phase::Upload, true), Phase::WaitActive);
    assert_eq!(next_phase(Phase::WaitActive, true), Phase::WaitIdle);
    assert_eq!(next_phase(Phase::WaitIdle, true), Phase::Upload);
    assert_eq!(next_phase(Phase::WaitIdle, false), Phase::LoopStopped);
    assert_eq!(exit_code(Phase::SetupFailed), Some(EXIT_SETUP_FAILED));
    assert_eq!(exit_code(Phase::LoopStopped), Some(EXIT_LOOP_STOPPED));
    assert_eq!(exit_code(Phase::Upload), None);
    assert_ne!(EXIT_SETUP_FAILED, EXIT_LOOP_STOPPED);
}

#[test]
fn cleanup_retries_the_unmap_and_ignores_the_rest() {
    let mut cycle = Cycle::cleanup(config());
    assert!(matches!(cycle.next_action(), Action::Unmount { check: CommandCheck::IgnoreOutput, .. }));
    cycle.record(Err(failure()));
    assert!(matches!(cycle.next_action(), Action::RemoveMapping { check: CommandCheck::Retry { count: 3, .. }, .. }));
    cycle.record(Err(failure()));
    assert!(matches!(cycle.next_action(), Action::RemoveSnapshot { check: CommandCheck::IgnoreOutput, .. }));
    cycle.record(Err(failure()));
    assert!(cycle.is_done());
    assert_eq!(cycle.result(), Ok(()));
}
