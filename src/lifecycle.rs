//! The volume lifecycle of one upload cycle, as a state machine: snapshot the
//! live volume, map its partition read-only, mount it, scan and upload, then
//! tear down in reverse order. The machine decides; its driver runs each
//! action and hands back the outcome.

use vstd::prelude::*;
use core::time::Duration;
use crate::command::{CommandCheck, Error, MapMode, Result};
use crate::parted::{is_extent_error, linear_table, linear_table_spec, partition_extent};

verus! {

/// The names that a cycle works with.
pub struct Config {
    /// The volume group that holds the live volume and its snapshot.
    pub volume_group: String,
    /// The live volume that the host writes to.
    pub origin: String,
    /// The snapshot taken of it for each cycle.
    pub snapshot: String,
    /// The device-mapper node that exposes the snapshot's partition.
    pub mapped_name: String,
    /// Where the mapped partition is mounted.
    pub mount_point: String,
    /// Where recordings are encoded before they are uploaded.
    pub work_dir: String,
    /// Where the remote-sync tool copies encoded recordings to.
    pub destination: String,
    /// How removing the mapping after unmounting is retried. In the teardown
    /// that follows a failure a removal that still fails is let go.
    pub unmap_check: CommandCheck,
}

impl Config {
    /// The mapping removal is tried at least once.
    pub open spec fn wf(&self) -> bool {
        self.unmap_check.wf()
    }

    /// The names of an upload stick, with the mapping removal retried `unmap_attempts`
    /// times, `unmap_interval` apart.
    pub fn standard(unmap_attempts: u32, unmap_interval: Duration) -> (r: Config)
        requires
            unmap_attempts >= 1,
        ensures
            r.wf(),
            r.volume_group@ == "data"@,
            r.origin@ == "mass_storage_root"@,
            r.snapshot@ == "mass_storage_snap"@,
            r.mapped_name@ == "mass_storage_snap_partition"@,
            r.mount_point@ == "/mnt"@,
            r.work_dir@ == "/tmp/upload-stick"@,
            r.destination@ == "upload:/Auto_Upload/"@,
            r.unmap_check == (CommandCheck::Retry { count: unmap_attempts, interval: unmap_interval }),
    {
        Config {
            volume_group: String::from_str("data"),
            origin: String::from_str("mass_storage_root"),
            snapshot: String::from_str("mass_storage_snap"),
            mapped_name: String::from_str("mass_storage_snap_partition"),
            mount_point: String::from_str("/mnt"),
            work_dir: String::from_str("/tmp/upload-stick"),
            destination: String::from_str("upload:/Auto_Upload/"),
            unmap_check: CommandCheck::Retry { count: unmap_attempts, interval: unmap_interval },
        }
    }
}

/// The block device of a logical volume: `/dev/<group>/<volume>`.
pub open spec fn volume_device(group: Seq<char>, volume: Seq<char>) -> Seq<char> {
    seq!['/', 'd', 'e', 'v', '/'] + group + seq!['/'] + volume
}

/// The block device of a device-mapper node: `/dev/mapper/<name>`.
pub open spec fn mapper_device(name: Seq<char>) -> Seq<char> {
    seq!['/', 'd', 'e', 'v', '/', 'm', 'a', 'p', 'p', 'e', 'r', '/'] + name
}

fn volume_device_of(group: &str, volume: &str) -> (r: String)
    ensures
        r@ == volume_device(group@, volume@),
{
    proof {
        reveal_strlit("/dev/");
        reveal_strlit("/");
    }
    let mut r = String::from_str("/dev/");
    r.append(group);
    r.append("/");
    r.append(volume);
    r
}

fn mapper_device_of(name: &str) -> (r: String)
    ensures
        r@ == mapper_device(name@),
{
    proof {
        reveal_strlit("/dev/mapper/");
    }
    let mut r = String::from_str("/dev/mapper/");
    r.append(name);
    r
}

/// Where a cycle stands.
#[derive(Debug, Clone, Copy, PartialEq, Eq, Structural)]
pub enum Stage {
    CreateSnapshot,
    ReadPartitionTable,
    CreateMapping,
    Mount,
    Scan,
    Unmount,
    RemoveMapping,
    RemoveSnapshot,
    CleanUnmount,
    CleanRemoveMapping,
    CleanRemoveSnapshot,
    Finished,
}

/// The steps of a cycle that must succeed for it to go on.
pub open spec fn is_forward(s: Stage) -> bool {
    match s {
        Stage::CleanUnmount | Stage::CleanRemoveMapping | Stage::CleanRemoveSnapshot
        | Stage::Finished => false,
        _ => true,
    }
}

/// The best-effort teardown that follows a failure, or that runs on startup.
pub open spec fn is_cleanup(s: Stage) -> bool {
    match s {
        Stage::CleanUnmount | Stage::CleanRemoveMapping | Stage::CleanRemoveSnapshot => true,
        _ => false,
    }
}

/// The stage after `s`, where its step succeeded (`ok`) or failed. A failed
/// forward step leads to the teardown; the teardown goes on whatever happens.
pub open spec fn next_stage(s: Stage, ok: bool) -> Stage {
    if is_forward(s) && !ok {
        Stage::CleanUnmount
    } else {
        match s {
            Stage::CreateSnapshot => Stage::ReadPartitionTable,
            Stage::ReadPartitionTable => Stage::CreateMapping,
            Stage::CreateMapping => Stage::Mount,
            Stage::Mount => Stage::Scan,
            Stage::Scan => Stage::Unmount,
            Stage::Unmount => Stage::RemoveMapping,
            Stage::RemoveMapping => Stage::RemoveSnapshot,
            Stage::RemoveSnapshot => Stage::Finished,
            Stage::CleanUnmount => Stage::CleanRemoveMapping,
            Stage::CleanRemoveMapping => Stage::CleanRemoveSnapshot,
            Stage::CleanRemoveSnapshot => Stage::Finished,
            Stage::Finished => Stage::Finished,
        }
    }
}

/// Whether the step of stage `s` succeeded, given the outcome of its action:
/// the partition listing must also show the partition to map.
pub open spec fn step_succeeded(s: Stage, outcome: Result<String>) -> bool {
    match outcome {
        Ok(out) => s != Stage::ReadPartitionTable || partition_extent(out@) is Some,
        Err(_) => false,
    }
}

/// What the driver is to do next.
#[derive(Debug)]
pub enum Action {
    /// Take a copy-on-write snapshot named `name` of `origin`, using all the
    /// free space of `volume_group`.
    CreateSnapshot { volume_group: String, origin: String, name: String },
    /// List the partition table of `device` in sectors, machine-readably; the
    /// outcome carries the listing.
    ReadPartitionTable { device: String },
    /// Create the device-mapper node `name` with `table`.
    CreateMapping { name: String, table: String, mode: MapMode },
    /// Mount `device` read-only at `mount_point`.
    Mount { device: String, mount_point: String },
    /// Upload the new recordings under `mount_point`.
    Scan { mount_point: String },
    Unmount { mount_point: String, check: CommandCheck },
    RemoveMapping { name: String, check: CommandCheck },
    RemoveSnapshot { volume_group: String, name: String, check: CommandCheck },
    /// The cycle is over; its result is `Cycle::result`.
    Done,
}

/// One cycle of the volume lifecycle.
pub struct Cycle {
    stage: Stage,
    table: String,
    error: Option<Error>,
    config: Config,
}

impl Cycle {
    pub closed spec fn stage(&self) -> Stage {
        self.stage
    }

    /// The mapping table read from the snapshot's partition listing.
    pub closed spec fn table(&self) -> Seq<char> {
        self.table@
    }

    /// The first failure of the cycle.
    pub closed spec fn error(&self) -> Option<Error> {
        self.error
    }

    pub closed spec fn config(&self) -> Config {
        self.config
    }

    /// A full cycle, from taking the snapshot on.
    pub fn new(config: Config) -> (r: Cycle)
        requires
            config.wf(),
        ensures
            r.stage() == Stage::CreateSnapshot,
            r.error() is None,
            r.config() == config,
            r.wf(),
    {
        Cycle { stage: Stage::CreateSnapshot, table: String::new(), error: None, config }
    }

    /// The teardown alone, to reap what an earlier run left behind.
    pub fn cleanup(config: Config) -> (r: Cycle)
        requires
            config.wf(),
        ensures
            r.stage() == Stage::CleanUnmount,
            r.error() is None,
            r.config() == config,
            r.wf(),
    {
        Cycle { stage: Stage::CleanUnmount, table: String::new(), error: None, config }
    }

    /// No failure is on record before the teardown.
    pub open spec fn wf(&self) -> bool {
        &&& is_forward(self.stage()) ==> self.error() is None
        &&& self.config().wf()
    }

    /// What the driver is to do in the current stage.
    pub fn next_action(&self) -> (a: Action)
        ensures
            match self.stage() {
                Stage::CreateSnapshot => a matches Action::CreateSnapshot {
                    volume_group,
                    origin,
                    name,
                } && volume_group@ == self.config().volume_group@ && origin@
                    == self.config().origin@ && name@ == self.config().snapshot@,
                Stage::ReadPartitionTable => a matches Action::ReadPartitionTable { device }
                    && device@ == volume_device(
                    self.config().volume_group@,
                    self.config().snapshot@,
                ),
                Stage::CreateMapping => a matches Action::CreateMapping { name, table, mode }
                    && name@ == self.config().mapped_name@ && table@ == self.table() && mode
                    == MapMode::ReadOnly,
                Stage::Mount => a matches Action::Mount { device, mount_point } && device@
                    == mapper_device(self.config().mapped_name@) && mount_point@
                    == self.config().mount_point@,
                Stage::Scan => a matches Action::Scan { mount_point } && mount_point@
                    == self.config().mount_point@,
                Stage::Unmount => a matches Action::Unmount { mount_point, check }
                    && mount_point@ == self.config().mount_point@ && check
                    == CommandCheck::ExpectZeroExitCode,
                Stage::RemoveMapping => a matches Action::RemoveMapping { name, check } && name@
                    == self.config().mapped_name@ && check == self.config().unmap_check,
                Stage::RemoveSnapshot => a matches Action::RemoveSnapshot {
                    volume_group,
                    name,
                    check,
                } && volume_group@ == self.config().volume_group@ && name@
                    == self.config().snapshot@ && check == CommandCheck::ExpectZeroExitCode,
                Stage::CleanUnmount => a matches Action::Unmount { mount_point, check }
                    && mount_point@ == self.config().mount_point@ && check
                    == CommandCheck::IgnoreOutput,
                Stage::CleanRemoveMapping => a matches Action::RemoveMapping { name, check }
                    && name@ == self.config().mapped_name@ && check == self.config().unmap_check,
                Stage::CleanRemoveSnapshot => a matches Action::RemoveSnapshot {
                    volume_group,
                    name,
                    check,
                } && volume_group@ == self.config().volume_group@ && name@
                    == self.config().snapshot@ && check == CommandCheck::IgnoreOutput,
                Stage::Finished => a is Done,
            },
    {
        let c = &self.config;
        match self.stage {
            Stage::CreateSnapshot => Action::CreateSnapshot {
                volume_group: c.volume_group.clone(),
                origin: c.origin.clone(),
                name: c.snapshot.clone(),
            },
            Stage::ReadPartitionTable => Action::ReadPartitionTable {
                device: volume_device_of(c.volume_group.as_str(), c.snapshot.as_str()),
            },
            Stage::CreateMapping => Action::CreateMapping {
                name: c.mapped_name.clone(),
                table: self.table.clone(),
                mode: MapMode::ReadOnly,
            },
            Stage::Mount => Action::Mount {
                device: mapper_device_of(c.mapped_name.as_str()),
                mount_point: c.mount_point.clone(),
            },
            Stage::Scan => Action::Scan { mount_point: c.mount_point.clone() },
            Stage::Unmount => Action::Unmount {
                mount_point: c.mount_point.clone(),
                check: CommandCheck::ExpectZeroExitCode,
            },
            Stage::RemoveMapping => Action::RemoveMapping {
                name: c.mapped_name.clone(),
                check: c.unmap_check,
            },
            Stage::RemoveSnapshot => Action::RemoveSnapshot {
                volume_group: c.volume_group.clone(),
                name: c.snapshot.clone(),
                check: CommandCheck::ExpectZeroExitCode,
            },
            Stage::CleanUnmount => Action::Unmount {
                mount_point: c.mount_point.clone(),
                check: CommandCheck::IgnoreOutput,
            },
            Stage::CleanRemoveMapping => Action::RemoveMapping {
                name: c.mapped_name.clone(),
                check: c.unmap_check,
            },
            Stage::CleanRemoveSnapshot => Action::RemoveSnapshot {
                volume_group: c.volume_group.clone(),
                name: c.snapshot.clone(),
                check: CommandCheck::IgnoreOutput,
            },
            Stage::Finished => Action::Done,
        }
    }

    /// Takes the outcome of the current stage's action and moves on.
    pub fn record(&mut self, outcome: Result<String>)
        requires
            old(self).wf(),
        ensures
            final(self).wf(),
            final(self).config() == old(self).config(),
            final(self).stage() == next_stage(old(self).stage(), step_succeeded(old(self).stage(), outcome)),
            is_cleanup(old(self).stage()) ==> final(self).table() == old(self).table(),
            is_cleanup(old(self).stage()) ==> final(self).error() == (if old(self).error() is None
                && outcome matches Err(Error::CommandTerminatedBySignal) {
                Some(Error::CommandTerminatedBySignal)
            } else {
                old(self).error()
            }),
            is_forward(old(self).stage()) && old(self).stage() != Stage::ReadPartitionTable ==> match outcome {
                Ok(_) => final(self).error() is None && final(self).table() == old(self).table(),
                Err(e) => final(self).error() == Some(e),
            },
            old(self).stage() == Stage::ReadPartitionTable ==> match outcome {
                Ok(out) => match partition_extent(out@) {
                    Some((start, length)) => final(self).error() is None && final(self).table()
                        == linear_table_spec(
                        start,
                        length,
                        volume_device(old(self).config().volume_group@, old(self).config().snapshot@),
                    ),
                    None => final(self).error() matches Some(e) && is_extent_error(out@, e),
                },
                Err(e) => final(self).error() == Some(e),
            },
            old(self).stage() == Stage::Finished ==> final(self).error() == old(self).error(),
    {
        let stage = self.stage;
        match stage {
            Stage::Finished => {},
            Stage::CleanUnmount | Stage::CleanRemoveMapping | Stage::CleanRemoveSnapshot => {
                if self.error.is_none() {
                    if let Err(Error::CommandTerminatedBySignal) = outcome {
                        self.error = Some(Error::CommandTerminatedBySignal);
                    }
                }
                self.stage = match stage {
                    Stage::CleanUnmount => Stage::CleanRemoveMapping,
                    Stage::CleanRemoveMapping => Stage::CleanRemoveSnapshot,
                    _ => Stage::Finished,
                };
            },
            Stage::ReadPartitionTable => {
                match outcome {
                    Ok(out) => {
                        let device = volume_device_of(
                            self.config.volume_group.as_str(),
                            self.config.snapshot.as_str(),
                        );
                        match linear_table(out.as_str(), device.as_str()) {
                            Ok(t) => {
                                self.table = t;
                                self.stage = Stage::CreateMapping;
                            },
                            Err(e) => {
                                self.error = Some(e);
                                self.stage = Stage::CleanUnmount;
                            },
                        }
                    },
                    Err(e) => {
                        self.error = Some(e);
                        self.stage = Stage::CleanUnmount;
                    },
                }
            },
            _ => {
                match outcome {
                    Ok(_) => {
                        self.stage = match stage {
                            Stage::CreateSnapshot => Stage::ReadPartitionTable,
                            Stage::CreateMapping => Stage::Mount,
                            Stage::Mount => Stage::Scan,
                            Stage::Scan => Stage::Unmount,
                            Stage::Unmount => Stage::RemoveMapping,
                            Stage::RemoveMapping => Stage::RemoveSnapshot,
                            _ => Stage::Finished,
                        };
                    },
                    Err(e) => {
                        self.error = Some(e);
                        self.stage = Stage::CleanUnmount;
                    },
                }
            },
        }
    }

    /// The outcome of a finished cycle: its first failure, if any.
    pub fn result(self) -> (r: Result<()>)
        requires
            self.stage() == Stage::Finished,
        ensures
            match self.error() {
                None => r is Ok,
                Some(e) => r == Err::<(), Error>(e),
            },
    {
        match self.error {
            None => Ok(()),
            Some(e) => Err(e),
        }
    }

    pub fn is_done(&self) -> (r: bool)
        ensures
            r == (self.stage() == Stage::Finished),
    {
        self.stage == Stage::Finished
    }
}

/// Which of the cycle's volumes exist on the system.
pub struct Volumes {
    pub snapshot: bool,
    pub mapping: bool,
    pub mounted: bool,
}

pub open spec fn no_volumes() -> Volumes {
    Volumes { snapshot: false, mapping: false, mounted: false }
}

/// Whether the action of stage `s` can succeed on the system: a mapping needs
/// its snapshot, a mount its mapping; a mounted mapping cannot be removed, nor
/// a mapped snapshot.
pub open spec fn possible(v: Volumes, s: Stage) -> bool {
    match s {
        Stage::CreateMapping => v.snapshot,
        Stage::Mount => v.mapping,
        Stage::RemoveMapping | Stage::CleanRemoveMapping => !v.mounted,
        Stage::RemoveSnapshot | Stage::CleanRemoveSnapshot => !v.mapping,
        _ => true,
    }
}

/// The system after the action of stage `s` succeeded.
pub open spec fn effect(v: Volumes, s: Stage) -> Volumes {
    match s {
        Stage::CreateSnapshot => Volumes { snapshot: true, ..v },
        Stage::CreateMapping => Volumes { mapping: true, ..v },
        Stage::Mount => Volumes { mounted: true, ..v },
        Stage::Unmount | Stage::CleanUnmount => Volumes { mounted: false, ..v },
        Stage::RemoveMapping | Stage::CleanRemoveMapping => Volumes { mapping: false, ..v },
        Stage::RemoveSnapshot | Stage::CleanRemoveSnapshot => Volumes { snapshot: false, ..v },
        _ => v,
    }
}

/// Runs a cycle from stage `s` on the system `v` for at most `fuel` steps,
/// where the forward steps in `fails` fail and every other step succeeds
/// where the system allows it. Gives the last stage and the system then.
pub open spec fn simulate(s: Stage, v: Volumes, fails: Set<Stage>, fuel: nat) -> (Stage, Volumes)
    decreases fuel,
{
    if fuel == 0 || s == Stage::Finished {
        (s, v)
    } else {
        let ok = possible(v, s) && !(is_forward(s) && fails.contains(s));
        let v2 = if ok {
            effect(v, s)
        } else {
            v
        };
        simulate(next_stage(s, ok), v2, fails, (fuel - 1) as nat)
    }
}

/// The teardown, on any system, leaves no mount, no mapping and no snapshot.
pub proof fn lemma_cleanup_reaps_everything(v: Volumes, fails: Set<Stage>)
    ensures
        simulate(Stage::CleanUnmount, v, fails, 3) == (Stage::Finished, no_volumes()),
{
    reveal_with_fuel(simulate, 4);
}

/// Whatever forward steps of a cycle fail, the cycle finishes, and it leaves
/// no mount, no mapping and no snapshot behind.
pub proof fn lemma_cycle_leaves_nothing(fails: Set<Stage>)
    ensures
        simulate(Stage::CreateSnapshot, no_volumes(), fails, 11) == (Stage::Finished, no_volumes()),
{
    reveal_with_fuel(simulate, 12);
}

} // verus!
