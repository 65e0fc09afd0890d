//! The orchestration of one generation request: resolving the identity of
//! the kernel, planning the run against the catalog, and the decisions taken
//! between the outside steps (probing the output, pulling the image, running
//! the container, confirming the artifact).

use vstd::prelude::*;
use crate::banner::{opt_banner, parse_banner, parse_banner_spec, BannerParseResult, BannerView};
use crate::distros::{distro_named, lookup, find_version, Distro, DistroVersion, DistroVersionView};
use crate::script::{generate_script, get_symbol_filename, script_text, symbol_filename};
use crate::text::{lower_of, owned};

verus! {

/// Why a generation request fails.
pub enum GenerateError {
    /// The distribution name is not one that the catalog knows.
    UnknownDistro(String),
    /// The catalog has no such release of the distribution.
    UnsupportedVersion(String, Distro),
    /// The container image could not be pulled.
    Pull(String),
    /// The container could not be run to completion.
    Container(String),
    /// The container exited with a non-zero code.
    ExitCode(i64),
    /// The container exited with code zero but left no symbol file.
    ArtifactMissing,
}

/// Everything a generation needs, resolved against the catalog.
pub struct GenerationPlan {
    pub kernel: String,
    pub distro_version: DistroVersion,
    pub symbol_filename: String,
    pub script: String,
}

/// The mathematical value of a `GenerationPlan`.
pub struct PlanView {
    pub kernel: Seq<char>,
    pub distro_version: DistroVersionView,
    pub symbol_filename: Seq<char>,
    pub script: Seq<char>,
}

impl View for GenerationPlan {
    type V = PlanView;

    open spec fn view(&self) -> PlanView {
        PlanView {
            kernel: self.kernel@,
            distro_version: self.distro_version@,
            symbol_filename: self.symbol_filename@,
            script: self.script@,
        }
    }
}

/// The plan for `kernel` on the catalog entry `dv`.
pub open spec fn plan_view(kernel: Seq<char>, dv: DistroVersionView) -> PlanView {
    PlanView {
        kernel,
        distro_version: dv,
        symbol_filename: symbol_filename(kernel, dv),
        script: script_text(kernel, dv),
    }
}

/// What planning `kernel` on release `version` of distribution `d` gives.
pub open spec fn plan_for_spec(kernel: Seq<char>, d: Distro, version: Seq<char>, r: Result<GenerationPlan, GenerateError>) -> bool {
    match lookup(d, version) {
        None => r matches Err(GenerateError::UnsupportedVersion(v, dd)) && v@ == version && dd == d,
        Some(e) => r matches Ok(p) && p@ == plan_view(kernel, e),
    }
}

/// Plans the generation of `kernel` on release `version` of `distro`.
pub fn plan_for_distro(kernel: &str, distro: Distro, version: &str) -> (r: Result<
    GenerationPlan,
    GenerateError,
>)
    ensures
        plan_for_spec(kernel@, distro, version@, r),
{
    match find_version(distro, version) {
        None => Err(GenerateError::UnsupportedVersion(owned(version), distro)),
        Some(dv) => {
            let symbol_filename = get_symbol_filename(kernel, &dv);
            let script = generate_script(kernel, &dv);
            Ok(GenerationPlan { kernel: owned(kernel), distro_version: dv, symbol_filename, script })
        },
    }
}

/// Plans a generation request: the distribution name is resolved ignoring
/// case, then the release is looked up in the catalog.
pub fn plan_generation(kernel: &str, distro: &str, version: &str) -> (r: Result<
    GenerationPlan,
    GenerateError,
>)
    ensures
        match distro_named(lower_of(distro@)) {
            None => r matches Err(GenerateError::UnknownDistro(n)) && n@ == distro@,
            Some(d) => plan_for_spec(kernel@, d, version@, r),
        },
{
    match Distro::from_str(distro) {
        None => Err(GenerateError::UnknownDistro(owned(distro))),
        Some(d) => plan_for_distro(kernel, d, version),
    }
}

/// How a generation ends.
pub enum GenOutcome {
    /// The symbol file was already there; nothing was run.
    AlreadyPresent,
    /// The container produced the symbol file, of this many bytes.
    Generated(u64),
    Failed(GenerateError),
}

/// Where a generation stands. Each phase but `Done` names the outside step
/// that the caller performs next and reports as an event.
pub enum GenPhase {
    /// Check whether the symbol file already exists in the output directory.
    AwaitProbe,
    /// Create the output directory and pull the container image.
    AwaitPull,
    /// Run the script in a container and report its exit code.
    AwaitExit,
    /// Check that the symbol file now exists and measure it.
    AwaitMeasure,
    Done(GenOutcome),
}

/// What an outside step reports.
pub enum GenEvent {
    Probed(bool),
    Pulled,
    PullFailed(String),
    Exited(i64),
    RunFailed(String),
    Measured(Option<u64>),
}

/// The phase that follows `phase` on `event`. An event that the phase does
/// not await leaves it unchanged.
pub open spec fn advance_spec(phase: GenPhase, event: GenEvent) -> GenPhase {
    match phase {
        GenPhase::AwaitProbe => match event {
            GenEvent::Probed(true) => GenPhase::Done(GenOutcome::AlreadyPresent),
            GenEvent::Probed(false) => GenPhase::AwaitPull,
            _ => phase,
        },
        GenPhase::AwaitPull => match event {
            GenEvent::Pulled => GenPhase::AwaitExit,
            GenEvent::PullFailed(m) => GenPhase::Done(GenOutcome::Failed(GenerateError::Pull(m))),
            _ => phase,
        },
        GenPhase::AwaitExit => match event {
            GenEvent::Exited(c) => if c != 0 {
                GenPhase::Done(GenOutcome::Failed(GenerateError::ExitCode(c)))
            } else {
                GenPhase::AwaitMeasure
            },
            GenEvent::RunFailed(m) => GenPhase::Done(
                GenOutcome::Failed(GenerateError::Container(m)),
            ),
            _ => phase,
        },
        GenPhase::AwaitMeasure => match event {
            GenEvent::Measured(Some(size)) => GenPhase::Done(GenOutcome::Generated(size)),
            GenEvent::Measured(None) => GenPhase::Done(
                GenOutcome::Failed(GenerateError::ArtifactMissing),
            ),
            _ => phase,
        },
        GenPhase::Done(_) => phase,
    }
}

/// The phase in which every generation starts.
pub fn start() -> (r: GenPhase)
    ensures
        r == GenPhase::AwaitProbe,
{
    GenPhase::AwaitProbe
}

/// Takes the generation one step further on what the last outside step
/// reported.
pub fn advance(phase: GenPhase, event: GenEvent) -> (r: GenPhase)
    ensures
        r == advance_spec(phase, event),
{
    match phase {
        GenPhase::AwaitProbe => match event {
            GenEvent::Probed(true) => GenPhase::Done(GenOutcome::AlreadyPresent),
            GenEvent::Probed(false) => GenPhase::AwaitPull,
            _ => GenPhase::AwaitProbe,
        },
        GenPhase::AwaitPull => match event {
            GenEvent::Pulled => GenPhase::AwaitExit,
            GenEvent::PullFailed(m) => GenPhase::Done(GenOutcome::Failed(GenerateError::Pull(m))),
            _ => GenPhase::AwaitPull,
        },
        GenPhase::AwaitExit => match event {
            GenEvent::Exited(c) => if c != 0 {
                GenPhase::Done(GenOutcome::Failed(GenerateError::ExitCode(c)))
            } else {
                GenPhase::AwaitMeasure
            },
            GenEvent::RunFailed(m) => GenPhase::Done(
                GenOutcome::Failed(GenerateError::Container(m)),
            ),
            _ => GenPhase::AwaitExit,
        },
        GenPhase::AwaitMeasure => match event {
            GenEvent::Measured(Some(size)) => GenPhase::Done(GenOutcome::Generated(size)),
            GenEvent::Measured(None) => GenPhase::Done(
                GenOutcome::Failed(GenerateError::ArtifactMissing),
            ),
            _ => GenPhase::AwaitMeasure,
        },
        GenPhase::Done(o) => GenPhase::Done(o),
    }
}

/// The phase reached from `phase` after the events `events`, in order.
pub open spec fn run_from(phase: GenPhase, events: Seq<GenEvent>) -> GenPhase
    decreases events.len(),
{
    if events.len() == 0 {
        phase
    } else {
        run_from(advance_spec(phase, events[0]), events.drop_first())
    }
}

/// Whether the run from `phase` through `events` ever asks for a container
/// run.
pub open spec fn runs_container(phase: GenPhase, events: Seq<GenEvent>) -> bool
    decreases events.len(),
{
    phase is AwaitExit || (events.len() > 0 && runs_container(
        advance_spec(phase, events[0]),
        events.drop_first(),
    ))
}

/// A finished generation stays finished, whatever is reported after.
pub proof fn lemma_done_is_final(o: GenOutcome, events: Seq<GenEvent>)
    ensures
        run_from(GenPhase::Done(o), events) == GenPhase::Done(o),
        !runs_container(GenPhase::Done(o), events),
    decreases events.len(),
{
    if events.len() > 0 {
        lemma_done_is_final(o, events.drop_first());
    }
}

/// A generation whose symbol file already exists finishes successfully
/// without running a container, whatever is reported after the probe. So a
/// second request for a symbol file that the first one produced runs no
/// container.
pub proof fn lemma_existing_artifact_short_circuits(events: Seq<GenEvent>)
    ensures
        run_from(GenPhase::AwaitProbe, seq![GenEvent::Probed(true)] + events) == GenPhase::Done(
            GenOutcome::AlreadyPresent,
        ),
        !runs_container(GenPhase::AwaitProbe, seq![GenEvent::Probed(true)] + events),
{
    let all = seq![GenEvent::Probed(true)] + events;
    assert(all.drop_first() =~= events);
    lemma_done_is_final(GenOutcome::AlreadyPresent, events);
}

/// A non-zero exit code ends the generation with that error, whatever is
/// reported after it: a symbol file found later does not make it succeed.
pub proof fn lemma_nonzero_exit_is_fatal(code: i64, events: Seq<GenEvent>)
    requires
        code != 0,
    ensures
        run_from(GenPhase::AwaitExit, seq![GenEvent::Exited(code)] + events) == GenPhase::Done(
            GenOutcome::Failed(GenerateError::ExitCode(code)),
        ),
{
    let all = seq![GenEvent::Exited(code)] + events;
    assert(all.drop_first() =~= events);
    lemma_done_is_final(GenOutcome::Failed(GenerateError::ExitCode(code)), events);
}

proof fn lemma_measured_before_success(phase: GenPhase, events: Seq<GenEvent>, size: u64)
    requires
        phase is AwaitMeasure,
        run_from(phase, events) == GenPhase::Done(GenOutcome::Generated(size)),
    ensures
        exists|j: int| 0 <= j < events.len() && events[j] == GenEvent::Measured(Some(size)),
    decreases events.len(),
{
    let next = advance_spec(phase, events[0]);
    if next is Done {
        lemma_done_is_final(next->Done_0, events.drop_first());
        assert(events[0] == GenEvent::Measured(Some(size)));
    } else {
        lemma_measured_before_success(next, events.drop_first(), size);
        let j = choose|j: int|
            0 <= j < events.drop_first().len() && events.drop_first()[j] == GenEvent::Measured(
                Some(size),
            );
        assert(events[j + 1] == GenEvent::Measured(Some(size)));
    }
}

/// A generation that runs a container succeeds only after the container
/// exited with code zero and the symbol file was then found.
pub proof fn lemma_success_needs_zero_exit_and_artifact(
    phase: GenPhase,
    events: Seq<GenEvent>,
    size: u64,
)
    requires
        phase is AwaitProbe || phase is AwaitPull || phase is AwaitExit,
        run_from(phase, events) == GenPhase::Done(GenOutcome::Generated(size)),
    ensures
        exists|i: int, j: int|
            0 <= i < j < events.len() && events[i] == GenEvent::Exited(0) && events[j]
                == GenEvent::Measured(Some(size)),
    decreases events.len(),
{
    if events.len() == 0 {
        return;
    }
    let next = advance_spec(phase, events[0]);
    let rest = events.drop_first();
    if next is Done {
        lemma_done_is_final(next->Done_0, rest);
    } else if next is AwaitMeasure {
        assert(events[0] == GenEvent::Exited(0));
        lemma_measured_before_success(next, rest, size);
        let j = choose|j: int| 0 <= j < rest.len() && rest[j] == GenEvent::Measured(Some(size));
        assert(events[j + 1] == GenEvent::Measured(Some(size)));
        assert(0 <= 0 < j + 1 < events.len());
    } else {
        lemma_success_needs_zero_exit_and_artifact(next, rest, size);
        let (i, j) = choose|i: int, j: int|
            0 <= i < j < rest.len() && rest[i] == GenEvent::Exited(0) && rest[j]
                == GenEvent::Measured(Some(size));
        assert(events[i + 1] == GenEvent::Exited(0));
        assert(events[j + 1] == GenEvent::Measured(Some(size)));
    }
}

/// What a successful generation reports.
pub struct GenerationResult {
    pub kernel_version: String,
    pub distro: String,
    pub distro_version: String,
    pub symbol_file: String,
    pub file_size: u64,
}

impl GenerationResult {
    /// The report of a plan that produced `symbol_file`, of `file_size`
    /// bytes.
    pub fn from_plan(plan: &GenerationPlan, symbol_file: String, file_size: u64) -> (r:
        GenerationResult)
        ensures
            r.kernel_version@ == plan.kernel@,
            r.distro@ == plan.distro_version.distro.spec_display_name(),
            r.distro_version@ == plan.distro_version.version@,
            r.symbol_file == symbol_file,
            r.file_size == file_size,
    {
        GenerationResult {
            kernel_version: owned(plan.kernel.as_str()),
            distro: owned(plan.distro_version.distro.display_name()),
            distro_version: owned(plan.distro_version.version.as_str()),
            symbol_file,
            file_size,
        }
    }
}

/// Why the kernel, distribution and release of a request could not be
/// determined.
#[derive(Debug, PartialEq, Eq, Structural)]
pub enum IdentityError {
    /// No kernel version could be read from the banner.
    BannerUnparsable,
    /// The banner names no distribution that is recognised.
    DistroUndetected,
    /// The banner's distribution release could not be determined.
    VersionUndetected,
    /// Neither a banner nor all of kernel, distribution and release were
    /// given.
    MissingArgument,
}

/// The kernel version, distribution name and release of a request.
pub struct Identity {
    pub kernel: String,
    pub distro: String,
    pub version: String,
}

/// What a banner parse result gives as an identity.
pub open spec fn identity_spec(parsed: Option<BannerView>, r: Result<Identity, IdentityError>) -> bool {
    match parsed {
        None => r == Err::<Identity, IdentityError>(IdentityError::BannerUnparsable),
        Some(b) => match b.distro {
            None => r == Err::<Identity, IdentityError>(IdentityError::DistroUndetected),
            Some(d) => match b.distro_version {
                None => r == Err::<Identity, IdentityError>(IdentityError::VersionUndetected),
                Some(v) => r matches Ok(id) && id.kernel@ == b.kernel_version && id.distro@ == d
                    && id.version@ == v,
            },
        },
    }
}

/// The identity that a banner parse result gives.
pub fn identity_from_parsed(parsed: Option<BannerParseResult>) -> (r: Result<
    Identity,
    IdentityError,
>)
    ensures
        identity_spec(opt_banner(parsed), r),
{
    match parsed {
        None => Err(IdentityError::BannerUnparsable),
        Some(b) => match b.distro {
            None => Err(IdentityError::DistroUndetected),
            Some(d) => match b.distro_version {
                None => Err(IdentityError::VersionUndetected),
                Some(v) => Ok(Identity { kernel: b.kernel_version, distro: d, version: v }),
            },
        },
    }
}

/// The identity of a request: read from the banner where one is given,
/// otherwise the explicit kernel, distribution and release, all three of
/// which are then needed.
pub fn resolve_identity(
    banner: Option<&str>,
    kernel: Option<String>,
    distro: Option<String>,
    version: Option<String>,
) -> (r: Result<Identity, IdentityError>)
    ensures
        match banner {
            Some(b) => identity_spec(parse_banner_spec(b@), r),
            None => match (kernel, distro, version) {
                (Some(k), Some(d), Some(v)) => r matches Ok(id) && id.kernel == k && id.distro == d
                    && id.version == v,
                _ => r == Err::<Identity, IdentityError>(IdentityError::MissingArgument),
            },
        },
{
    match banner {
        Some(b) => identity_from_parsed(parse_banner(b)),
        None => match (kernel, distro, version) {
            (Some(k), Some(d), Some(v)) => Ok(Identity { kernel: k, distro: d, version: v }),
            _ => Err(IdentityError::MissingArgument),
        },
    }
}

} // verus!
