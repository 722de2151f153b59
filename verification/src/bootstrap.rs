//! The database bootstrap sequence and the gateway's listen address.
//!
//! Bootstrapping reads the database configuration, creates the pool, loads the
//! Settings database module, reads its manifest, initialises the schema and,
//! where the lifecycle options ask for it, migrates. Each step is outside
//! work; what comes next, and what a failure reports, is decided here.

use vstd::prelude::*;

verus! {

/// A step of the bootstrap sequence, or its end.
#[derive(PartialEq, Eq, Structural, Clone, Copy, Debug)]
pub enum BootstrapPhase {
    ReadConfig,
    CreatePool,
    LoadModule,
    ReadManifest,
    Init { auto_migrate: bool },
    Migrate,
    Ready,
}

/// How the step of the current phase ended.
#[derive(Debug, PartialEq, Eq)]
pub enum BootstrapEvent {
    /// The step succeeded.
    Succeeded,
    /// The manifest was read; the lifecycle options derived from it say
    /// whether to migrate after initialisation.
    ManifestRead { auto_migrate: bool },
    /// The step failed with the given error text.
    Failed(String),
}

pub const READ_CONFIG_FAILED: &'static str = "read Settings database config failed: ";
pub const CREATE_POOL_FAILED: &'static str = "create Settings database pool failed: ";
pub const LOAD_MODULE_FAILED: &'static str = "load Settings database module failed: ";
pub const READ_MANIFEST_FAILED: &'static str = "read Settings database manifest failed: ";
pub const INIT_FAILED: &'static str = "Settings database init failed: ";
pub const MIGRATE_FAILED: &'static str = "Settings database migrate failed: ";

/// What a failure of the step of `phase` reports before the error text.
pub open spec fn failure_prefix(phase: BootstrapPhase) -> Seq<char> {
    match phase {
        BootstrapPhase::ReadConfig => READ_CONFIG_FAILED@,
        BootstrapPhase::CreatePool => CREATE_POOL_FAILED@,
        BootstrapPhase::LoadModule => LOAD_MODULE_FAILED@,
        BootstrapPhase::ReadManifest => READ_MANIFEST_FAILED@,
        BootstrapPhase::Init { .. } => INIT_FAILED@,
        BootstrapPhase::Migrate => MIGRATE_FAILED@,
        BootstrapPhase::Ready => Seq::empty(),
    }
}

/// The phase after a successful step of `phase`; `auto_migrate` is what the
/// manifest's lifecycle options say, used when the manifest has been read.
pub open spec fn phase_after(phase: BootstrapPhase, auto_migrate: bool) -> BootstrapPhase {
    match phase {
        BootstrapPhase::ReadConfig => BootstrapPhase::CreatePool,
        BootstrapPhase::CreatePool => BootstrapPhase::LoadModule,
        BootstrapPhase::LoadModule => BootstrapPhase::ReadManifest,
        BootstrapPhase::ReadManifest => BootstrapPhase::Init { auto_migrate },
        BootstrapPhase::Init { auto_migrate: a } => if a {
            BootstrapPhase::Migrate
        } else {
            BootstrapPhase::Ready
        },
        BootstrapPhase::Migrate => BootstrapPhase::Ready,
        BootstrapPhase::Ready => BootstrapPhase::Ready,
    }
}

/// Whether `event` is the kind of report the step of `phase` gives: the
/// manifest step reports the lifecycle options, the others plain success.
pub open spec fn event_fits(phase: BootstrapPhase, event: BootstrapEvent) -> bool {
    match event {
        BootstrapEvent::Failed(_) => phase != BootstrapPhase::Ready,
        BootstrapEvent::ManifestRead { .. } => phase == BootstrapPhase::ReadManifest,
        BootstrapEvent::Succeeded => phase != BootstrapPhase::ReadManifest && phase != BootstrapPhase::Ready,
    }
}

fn failure_prefix_text(phase: BootstrapPhase) -> (s: &'static str)
    requires
        phase != BootstrapPhase::Ready,
    ensures
        s@ == failure_prefix(phase),
{
    match phase {
        BootstrapPhase::ReadConfig => READ_CONFIG_FAILED,
        BootstrapPhase::CreatePool => CREATE_POOL_FAILED,
        BootstrapPhase::LoadModule => LOAD_MODULE_FAILED,
        BootstrapPhase::ReadManifest => READ_MANIFEST_FAILED,
        BootstrapPhase::Init { .. } => INIT_FAILED,
        BootstrapPhase::Migrate => MIGRATE_FAILED,
        BootstrapPhase::Ready => READ_CONFIG_FAILED,
    }
}

/// The next phase after the step of `phase` ended with `event`, or, when the
/// step failed, the message that the bootstrap fails with.
pub fn bootstrap_next(phase: BootstrapPhase, event: BootstrapEvent) -> (r: Result<BootstrapPhase, String>)
    requires
        event_fits(phase, event),
    ensures
        match event {
            BootstrapEvent::Failed(e) => r matches Err(m) && m@ == failure_prefix(phase) + e@,
            BootstrapEvent::ManifestRead { auto_migrate } => r == Ok::<BootstrapPhase, String>(
                phase_after(phase, auto_migrate),
            ),
            BootstrapEvent::Succeeded => r == Ok::<BootstrapPhase, String>(phase_after(phase, false)),
        },
{
    match event {
        BootstrapEvent::Failed(e) => {
            let mut m = String::from_str(failure_prefix_text(phase));
            m.append(e.as_str());
            Err(m)
        },
        BootstrapEvent::ManifestRead { auto_migrate } => Ok(BootstrapPhase::Init { auto_migrate }),
        BootstrapEvent::Succeeded => match phase {
            BootstrapPhase::ReadConfig => Ok(BootstrapPhase::CreatePool),
            BootstrapPhase::CreatePool => Ok(BootstrapPhase::LoadModule),
            BootstrapPhase::LoadModule => Ok(BootstrapPhase::ReadManifest),
            BootstrapPhase::Init { auto_migrate } => if auto_migrate {
                Ok(BootstrapPhase::Migrate)
            } else {
                Ok(BootstrapPhase::Ready)
            },
            BootstrapPhase::Migrate => Ok(BootstrapPhase::Ready),
            BootstrapPhase::ReadManifest => Ok(BootstrapPhase::Init { auto_migrate: false }),
            BootstrapPhase::Ready => Ok(BootstrapPhase::Ready),
        },
    }
}

/// The sequence migrates after initialisation exactly when the manifest's
/// lifecycle options ask for it, and is then ready.
pub proof fn law_migrates_iff_auto_migrate(auto_migrate: bool)
    ensures
        phase_after(BootstrapPhase::ReadManifest, auto_migrate) == (BootstrapPhase::Init { auto_migrate }),
        phase_after(BootstrapPhase::Init { auto_migrate }, false) == if auto_migrate {
            BootstrapPhase::Migrate
        } else {
            BootstrapPhase::Ready
        },
        phase_after(BootstrapPhase::Migrate, false) == BootstrapPhase::Ready,
{
}

/// The address the gateway listens on when none is configured.
pub const DEFAULT_LISTEN_ADDRESS: &'static str = "0.0.0.0:8080";

/// The address the gateway listens on: the configured one, if any (even an
/// empty one), else [`DEFAULT_LISTEN_ADDRESS`].
pub fn listen_address(configured: Option<String>) -> (a: String)
    ensures
        match configured {
            Some(c) => a == c,
            None => a@ == DEFAULT_LISTEN_ADDRESS@,
        },
{
    match configured {
        Some(c) => c,
        None => String::from_str(DEFAULT_LISTEN_ADDRESS),
    }
}

} // verus!
