//! The disk flash state machine. The host performs each action and reports
//! its outcome as an event; `FlashManager::advance` decides the next action
//! and the progress event to emit. The manager is also the single-flight
//! lock: a run holds it from `begin` until the run ends, on every exit path.

use vstd::prelude::*;
use crate::progress::{
    global_percent, in_window, percent_of, ratio_percent, window_end, window_start, Phase,
};
use crate::safety::{safety_verdict, verify_safe_to_flash, SafetyViolation};

verus! {

/// Where a flash run stands.
#[derive(Clone, Copy, Debug, PartialEq, Eq, Structural)]
pub enum FlashStage {
    /// No run has started on this manager yet.
    Idle,
    /// Waiting for the device's size at selection time.
    CheckDevice,
    /// Waiting for the newest matching image build and the cache state.
    ResolveImage,
    /// Downloading the compressed image.
    Fetch,
    /// Decompressing the cached archive.
    Extract,
    /// Waiting for the device's size again, right before the destructive steps.
    VerifyDevice,
    /// Unmounting the device.
    Unmount,
    /// Writing the image to the raw device.
    Write,
    /// Writing the first-boot files onto the boot partition.
    Configure,
    /// Ejecting the device.
    Eject,
    /// The medium is ready.
    Done,
    /// The run was aborted.
    Failed,
}

/// Why a flash run stopped.
#[derive(Clone, Copy, Debug, PartialEq, Eq, Structural)]
pub enum FlashError {
    /// Another flash is running.
    Busy,
    /// No image build matches the required release.
    ImageNotFound,
    /// The device failed the safety check.
    Safety(SafetyViolation),
    DownloadFailed,
    ExtractFailed,
    UnmountFailed,
    WriteFailed,
    /// The system refused raw access to the disk.
    DiskAccessDenied,
    ConfigureFailed,
    EjectFailed,
    /// The host reported an outcome that does not answer the pending action.
    UnexpectedEvent,
}

/// The message of a failed run, naming the failed phase.
pub open spec fn flash_error_text(x: FlashError) -> Seq<char> {
    match x {
        FlashError::Busy => "Un flash est déjà en cours. Veuillez patienter."@,
        FlashError::ImageNotFound => "Aucune version trouvée sur le serveur Raspberry Pi"@,
        FlashError::Safety(v) => crate::safety::violation_text(v),
        FlashError::DownloadFailed => "Échec du téléchargement de l'image"@,
        FlashError::ExtractFailed => "Image extraite introuvable"@,
        FlashError::UnmountFailed => "Échec du démontage de la carte SD"@,
        FlashError::WriteFailed => "Erreur lors du flash"@,
        FlashError::DiskAccessDenied => "macOS bloque l'écriture sur le disque. Va dans Réglages Système > Confidentialité > Accès complet au disque, ajoute JellySetup, puis quitte et relance l'app."@,
        FlashError::ConfigureFailed => "Partition boot non trouvée ou non modifiable"@,
        FlashError::EjectFailed => "Échec de l'éjection de la carte SD"@,
        FlashError::UnexpectedEvent => "Événement inattendu pendant le flash"@,
    }
}

impl FlashError {
    /// Human-readable description of the failure, naming the failed phase.
    pub fn message(&self) -> (r: &'static str)
        ensures
            r@ == flash_error_text(*self),
    {
        match self {
            FlashError::Busy => "Un flash est déjà en cours. Veuillez patienter.",
            FlashError::ImageNotFound => "Aucune version trouvée sur le serveur Raspberry Pi",
            FlashError::Safety(v) => v.message(),
            FlashError::DownloadFailed => "Échec du téléchargement de l'image",
            FlashError::ExtractFailed => "Image extraite introuvable",
            FlashError::UnmountFailed => "Échec du démontage de la carte SD",
            FlashError::WriteFailed => "Erreur lors du flash",
            FlashError::DiskAccessDenied => "macOS bloque l'écriture sur le disque. Va dans Réglages Système > Confidentialité > Accès complet au disque, ajoute JellySetup, puis quitte et relance l'app.",
            FlashError::ConfigureFailed => "Partition boot non trouvée ou non modifiable",
            FlashError::EjectFailed => "Échec de l'éjection de la carte SD",
            FlashError::UnexpectedEvent => "Événement inattendu pendant le flash",
        }
    }
}

/// What the host must do next.
#[derive(Clone, Copy, Debug, PartialEq, Eq, Structural)]
pub enum FlashAction {
    /// Measure the target device and report `DeviceSize`.
    ProbeDevice,
    /// Look up the newest image build and report `ImageResolved` or `ImageMissing`.
    ResolveImage,
    /// Download the image into the cache.
    Download,
    /// Decompress the cached image.
    Extract,
    /// Unmount the device (forced), then settle briefly.
    Unmount,
    /// Write the extracted image to the raw device.
    WriteImage,
    /// Write the first-boot configuration files.
    ConfigureBoot,
    /// Eject the device.
    Eject,
    /// Keep going with the current action.
    Continue,
    /// The run succeeded.
    Finish,
    /// The run stopped with this error.
    Abort(FlashError),
}

/// What the host reports back.
#[derive(Clone, Copy, Debug, PartialEq, Eq, Structural)]
pub enum FlashEvent {
    /// The run was started.
    Started,
    /// The device's current size in bytes.
    DeviceSize(u64),
    /// The image was found; whether its archive and its extracted form are cached.
    ImageResolved { cached: bool, extracted: bool },
    /// No image build matched.
    ImageMissing,
    /// Bytes downloaded so far out of the announced total (0 when unknown).
    DownloadProgress { downloaded: u64, total: u64 },
    /// Bytes written so far (measured or estimated) out of the image size.
    WriteProgress { written: u64, total: u64 },
    /// The pending action succeeded.
    StepDone,
    /// The pending action failed.
    StepFailed,
    /// The write was refused for lack of disk access.
    AccessDenied,
}

/// A short description attached to an emitted progress event.
#[derive(Clone, Copy, Debug, PartialEq, Eq, Structural)]
pub enum Milestone {
    Searching,
    Downloading,
    Extracting,
    Verifying,
    Unmounting,
    Writing,
    Configuring,
    Ejecting,
    Ready,
}

/// The message shown with a milestone.
pub open spec fn milestone_text(x: Milestone) -> Seq<char> {
    match x {
        Milestone::Searching => "Recherche de la dernière version..."@,
        Milestone::Downloading => "Téléchargement en cours..."@,
        Milestone::Extracting => "Extraction de l'image..."@,
        Milestone::Verifying => "Vérification de sécurité..."@,
        Milestone::Unmounting => "Démontage de la carte SD..."@,
        Milestone::Writing => "Écriture de l'image..."@,
        Milestone::Configuring => "Configuration du système..."@,
        Milestone::Ejecting => "Éjection de la carte..."@,
        Milestone::Ready => "Carte SD prête !"@,
    }
}

impl Milestone {
    /// The message shown with the event.
    pub fn message(&self) -> (r: &'static str)
        ensures
            r@ == milestone_text(*self),
    {
        match self {
            Milestone::Searching => "Recherche de la dernière version...",
            Milestone::Downloading => "Téléchargement en cours...",
            Milestone::Extracting => "Extraction de l'image...",
            Milestone::Verifying => "Vérification de sécurité...",
            Milestone::Unmounting => "Démontage de la carte SD...",
            Milestone::Writing => "Écriture de l'image...",
            Milestone::Configuring => "Configuration du système...",
            Milestone::Ejecting => "Éjection de la carte...",
            Milestone::Ready => "Carte SD prête !",
        }
    }
}

/// A progress event to emit: phase, global percent and milestone.
#[derive(Clone, Copy, Debug, PartialEq, Eq, Structural)]
pub struct Emission {
    pub phase: Phase,
    pub percent: u32,
    pub milestone: Milestone,
}

/// The decision taken on one event.
#[derive(Clone, Copy, Debug, PartialEq, Eq, Structural)]
pub struct FlashStep {
    pub action: FlashAction,
    pub emit: Option<Emission>,
}

/// The abstract state of a manager.
pub struct FlashState {
    pub active: bool,
    pub stage: FlashStage,
    pub percent: u32,
    pub path: Seq<char>,
}

/// True for the actions that end a run.
pub open spec fn is_terminal(a: FlashAction) -> bool {
    a is Finish || a is Abort
}

/// The percent actually emitted: never below what was already shown.
pub open spec fn raised(current: u32, target: u32) -> u32 {
    if target > current {
        target
    } else {
        current
    }
}

/// Global percent of a download sample.
pub open spec fn download_global(downloaded: u64, total: u64) -> u32 {
    in_window(Phase::Download, ratio_percent(downloaded, total, 100))
}

/// Global percent of a write sample (the write's own share stops at 99 until
/// the writer reports completion).
pub open spec fn write_global(written: u64, total: u64) -> u32 {
    in_window(Phase::Write, ratio_percent(written, total, 99))
}

/// The stage reached by a decision, with the emitted progress.
pub open spec fn go(
    s: FlashState,
    stage: FlashStage,
    action: FlashAction,
    phase: Phase,
    target: u32,
    m: Milestone,
) -> (FlashState, FlashStep) {
    let p = raised(s.percent, target);
    (
        FlashState { stage, percent: p, ..s },
        FlashStep { action, emit: Some(Emission { phase, percent: p, milestone: m }) },
    )
}

/// The run stops: the lock is released and the error reported.
pub open spec fn fail(s: FlashState, e: FlashError) -> (FlashState, FlashStep) {
    (
        FlashState { active: false, stage: FlashStage::Failed, ..s },
        FlashStep { action: FlashAction::Abort(e), emit: None },
    )
}

/// The decision on one event of an active run.
pub open spec fn next(s: FlashState, e: FlashEvent) -> (FlashState, FlashStep) {
    match (s.stage, e) {
        (FlashStage::CheckDevice, FlashEvent::DeviceSize(size)) => match safety_verdict(s.path, size) {
            Err(v) => fail(s, FlashError::Safety(v)),
            Ok(_) => go(
                s,
                FlashStage::ResolveImage,
                FlashAction::ResolveImage,
                Phase::Download,
                0,
                Milestone::Searching,
            ),
        },
        (FlashStage::ResolveImage, FlashEvent::ImageMissing) => fail(s, FlashError::ImageNotFound),
        (FlashStage::ResolveImage, FlashEvent::ImageResolved { cached, extracted }) => if extracted {
            go(
                s,
                FlashStage::VerifyDevice,
                FlashAction::ProbeDevice,
                Phase::Download,
                24,
                Milestone::Verifying,
            )
        } else if cached {
            go(
                s,
                FlashStage::Extract,
                FlashAction::Extract,
                Phase::Download,
                20,
                Milestone::Extracting,
            )
        } else {
            go(
                s,
                FlashStage::Fetch,
                FlashAction::Download,
                Phase::Download,
                5,
                Milestone::Downloading,
            )
        },
        (FlashStage::Fetch, FlashEvent::DownloadProgress { downloaded, total }) => go(
            s,
            FlashStage::Fetch,
            FlashAction::Continue,
            Phase::Download,
            download_global(downloaded, total),
            Milestone::Downloading,
        ),
        (FlashStage::Fetch, FlashEvent::StepDone) => go(
            s,
            FlashStage::Extract,
            FlashAction::Extract,
            Phase::Download,
            20,
            Milestone::Extracting,
        ),
        (FlashStage::Fetch, FlashEvent::StepFailed) => fail(s, FlashError::DownloadFailed),
        (FlashStage::Extract, FlashEvent::StepDone) => go(
            s,
            FlashStage::VerifyDevice,
            FlashAction::ProbeDevice,
            Phase::Download,
            24,
            Milestone::Verifying,
        ),
        (FlashStage::Extract, FlashEvent::StepFailed) => fail(s, FlashError::ExtractFailed),
        (FlashStage::VerifyDevice, FlashEvent::DeviceSize(size)) => match safety_verdict(s.path, size) {
            Err(v) => fail(s, FlashError::Safety(v)),
            Ok(_) => go(
                s,
                FlashStage::Unmount,
                FlashAction::Unmount,
                Phase::Download,
                25,
                Milestone::Unmounting,
            ),
        },
        (FlashStage::Unmount, FlashEvent::StepDone) => go(
            s,
            FlashStage::Write,
            FlashAction::WriteImage,
            Phase::Write,
            25,
            Milestone::Writing,
        ),
        (FlashStage::Unmount, FlashEvent::StepFailed) => fail(s, FlashError::UnmountFailed),
        (FlashStage::Write, FlashEvent::WriteProgress { written, total }) => go(
            s,
            FlashStage::Write,
            FlashAction::Continue,
            Phase::Write,
            write_global(written, total),
            Milestone::Writing,
        ),
        (FlashStage::Write, FlashEvent::StepDone) => go(
            s,
            FlashStage::Configure,
            FlashAction::ConfigureBoot,
            Phase::Configure,
            75,
            Milestone::Configuring,
        ),
        (FlashStage::Write, FlashEvent::StepFailed) => fail(s, FlashError::WriteFailed),
        (FlashStage::Write, FlashEvent::AccessDenied) => fail(s, FlashError::DiskAccessDenied),
        (FlashStage::Configure, FlashEvent::StepDone) => go(
            s,
            FlashStage::Eject,
            FlashAction::Eject,
            Phase::Eject,
            90,
            Milestone::Ejecting,
        ),
        (FlashStage::Configure, FlashEvent::StepFailed) => fail(s, FlashError::ConfigureFailed),
        (FlashStage::Eject, FlashEvent::StepDone) => {
            let (t, step) = go(
                s,
                FlashStage::Done,
                FlashAction::Finish,
                Phase::Complete,
                100,
                Milestone::Ready,
            );
            (FlashState { active: false, ..t }, step)
        },
        (FlashStage::Eject, FlashEvent::StepFailed) => fail(s, FlashError::EjectFailed),
        _ => fail(s, FlashError::UnexpectedEvent),
    }
}

/// The state after a successful `begin` on `path`.
pub open spec fn begun(s: FlashState, path: Seq<char>) -> FlashState {
    FlashState { active: true, stage: FlashStage::CheckDevice, percent: 0, path }
}

/// The outcome of `begin`: `Busy` while a run holds the lock.
pub open spec fn begin_spec(s: FlashState, path: Seq<char>) -> (FlashState, Result<FlashAction, FlashError>) {
    if s.active {
        (s, Err(FlashError::Busy))
    } else {
        (begun(s, path), Ok(FlashAction::ProbeDevice))
    }
}

/// Owns the single-flight lock and the state of the current (or last) run.
pub struct FlashManager {
    active: bool,
    stage: FlashStage,
    percent: u32,
    device_path: String,
}

impl View for FlashManager {
    type V = FlashState;

    closed spec fn view(&self) -> FlashState {
        FlashState {
            active: self.active,
            stage: self.stage,
            percent: self.percent,
            path: self.device_path@,
        }
    }
}

/// Well-formedness of a manager's state: the percent stays on the bar, and a
/// run holds the lock exactly while it is not over.
pub open spec fn state_wf(s: FlashState) -> bool {
    &&& s.percent <= 100
    &&& s.active <==> !(s.stage is Idle || s.stage is Done || s.stage is Failed)
}

impl FlashManager {
    /// A manager with no run and the lock free.
    pub fn new() -> (r: FlashManager)
        ensures
            state_wf(r@),
            !r@.active,
            r@.stage is Idle,
            r@.percent == 0,
    {
        FlashManager {
            active: false,
            stage: FlashStage::Idle,
            percent: 0,
            device_path: String::new(),
        }
    }

    /// True while a run holds the lock.
    pub fn is_busy(&self) -> (r: bool)
        ensures
            r == self@.active,
    {
        self.active
    }

    /// Where the current (or last) run stands.
    pub fn stage(&self) -> (r: FlashStage)
        ensures
            r == self@.stage,
    {
        self.stage
    }

    /// The last emitted global percent.
    pub fn percent(&self) -> (r: u32)
        ensures
            r == self@.percent,
    {
        self.percent
    }

    /// Starts a run on `device_path`: fails fast with `Busy` while another
    /// run holds the lock; otherwise takes the lock and asks for the device's
    /// size, to check it before anything is downloaded.
    pub fn begin(&mut self, device_path: &str) -> (r: Result<FlashAction, FlashError>)
        requires
            state_wf(old(self)@),
        ensures
            state_wf(final(self)@),
            (final(self)@, r) == begin_spec(old(self)@, device_path@),
    {
        if self.active {
            return Err(FlashError::Busy);
        }
        self.active = true;
        self.stage = FlashStage::CheckDevice;
        self.percent = 0;
        self.device_path = String::from_str(device_path);
        Ok(FlashAction::ProbeDevice)
    }

    /// Releases the lock of a run that its host abandoned (the host's scope
    /// guard calls this when it unwinds); the run counts as failed.
    pub fn abandon(&mut self)
        requires
            state_wf(old(self)@),
        ensures
            state_wf(final(self)@),
            !final(self)@.active,
            old(self)@.active ==> final(self)@.stage is Failed,
            !old(self)@.active ==> final(self)@ == old(self)@,
            final(self)@.percent == old(self)@.percent,
    {
        if self.active {
            self.active = false;
            self.stage = FlashStage::Failed;
        }
    }

    fn go(&mut self, stage: FlashStage, action: FlashAction, phase: Phase, target: u32, m: Milestone) -> (r:
        FlashStep)
        requires
            old(self)@.percent <= 100,
            target <= 100,
        ensures
            (final(self)@, r) == go(old(self)@, stage, action, phase, target, m),
    {
        if target > self.percent {
            self.percent = target;
        }
        self.stage = stage;
        FlashStep {
            action,
            emit: Some(Emission { phase, percent: self.percent, milestone: m }),
        }
    }

    fn fail(&mut self, e: FlashError) -> (r: FlashStep)
        ensures
            (final(self)@, r) == fail(old(self)@, e),
    {
        self.active = false;
        self.stage = FlashStage::Failed;
        FlashStep { action: FlashAction::Abort(e), emit: None }
    }

    /// Decides what follows an event of the active run. The run ends (and the
    /// lock is released) with `Finish` or `Abort`.
    pub fn advance(&mut self, event: FlashEvent) -> (r: FlashStep)
        requires
            state_wf(old(self)@),
            old(self)@.active,
        ensures
            (final(self)@, r) == next(old(self)@, event),
            state_wf(final(self)@),
    {
        match (self.stage, event) {
            (FlashStage::CheckDevice, FlashEvent::DeviceSize(size)) => {
                match verify_safe_to_flash(self.device_path.as_str(), size) {
                    Err(v) => self.fail(FlashError::Safety(v)),
                    Ok(_) => self.go(
                        FlashStage::ResolveImage,
                        FlashAction::ResolveImage,
                        Phase::Download,
                        0,
                        Milestone::Searching,
                    ),
                }
            },
            (FlashStage::ResolveImage, FlashEvent::ImageMissing) => self.fail(
                FlashError::ImageNotFound,
            ),
            (FlashStage::ResolveImage, FlashEvent::ImageResolved { cached, extracted }) => {
                if extracted {
                    self.go(
                        FlashStage::VerifyDevice,
                        FlashAction::ProbeDevice,
                        Phase::Download,
                        24,
                        Milestone::Verifying,
                    )
                } else if cached {
                    self.go(
                        FlashStage::Extract,
                        FlashAction::Extract,
                        Phase::Download,
                        20,
                        Milestone::Extracting,
                    )
                } else {
                    self.go(
                        FlashStage::Fetch,
                        FlashAction::Download,
                        Phase::Download,
                        5,
                        Milestone::Downloading,
                    )
                }
            },
            (FlashStage::Fetch, FlashEvent::DownloadProgress { downloaded, total }) => {
                let sub = percent_of(downloaded, total, 100);
                let target = global_percent(Phase::Download, sub);
                self.go(
                    FlashStage::Fetch,
                    FlashAction::Continue,
                    Phase::Download,
                    target,
                    Milestone::Downloading,
                )
            },
            (FlashStage::Fetch, FlashEvent::StepDone) => self.go(
                FlashStage::Extract,
                FlashAction::Extract,
                Phase::Download,
                20,
                Milestone::Extracting,
            ),
            (FlashStage::Fetch, FlashEvent::StepFailed) => self.fail(FlashError::DownloadFailed),
            (FlashStage::Extract, FlashEvent::StepDone) => self.go(
                FlashStage::VerifyDevice,
                FlashAction::ProbeDevice,
                Phase::Download,
                24,
                Milestone::Verifying,
            ),
            (FlashStage::Extract, FlashEvent::StepFailed) => self.fail(FlashError::ExtractFailed),
            (FlashStage::VerifyDevice, FlashEvent::DeviceSize(size)) => {
                match verify_safe_to_flash(self.device_path.as_str(), size) {
                    Err(v) => self.fail(FlashError::Safety(v)),
                    Ok(_) => self.go(
                        FlashStage::Unmount,
                        FlashAction::Unmount,
                        Phase::Download,
                        25,
                        Milestone::Unmounting,
                    ),
                }
            },
            (FlashStage::Unmount, FlashEvent::StepDone) => self.go(
                FlashStage::Write,
                FlashAction::WriteImage,
                Phase::Write,
                25,
                Milestone::Writing,
            ),
            (FlashStage::Unmount, FlashEvent::StepFailed) => self.fail(FlashError::UnmountFailed),
            (FlashStage::Write, FlashEvent::WriteProgress { written, total }) => {
                let sub = percent_of(written, total, 99);
                let target = global_percent(Phase::Write, sub);
                self.go(
                    FlashStage::Write,
                    FlashAction::Continue,
                    Phase::Write,
                    target,
                    Milestone::Writing,
                )
            },
            (FlashStage::Write, FlashEvent::StepDone) => self.go(
                FlashStage::Configure,
                FlashAction::ConfigureBoot,
                Phase::Configure,
                75,
                Milestone::Configuring,
            ),
            (FlashStage::Write, FlashEvent::StepFailed) => self.fail(FlashError::WriteFailed),
            (FlashStage::Write, FlashEvent::AccessDenied) => self.fail(FlashError::DiskAccessDenied),
            (FlashStage::Configure, FlashEvent::StepDone) => self.go(
                FlashStage::Eject,
                FlashAction::Eject,
                Phase::Eject,
                90,
                Milestone::Ejecting,
            ),
            (FlashStage::Configure, FlashEvent::StepFailed) => self.fail(
                FlashError::ConfigureFailed,
            ),
            (FlashStage::Eject, FlashEvent::StepDone) => {
                let step = self.go(
                    FlashStage::Done,
                    FlashAction::Finish,
                    Phase::Complete,
                    100,
                    Milestone::Ready,
                );
                self.active = false;
                step
            },
            (FlashStage::Eject, FlashEvent::StepFailed) => self.fail(FlashError::EjectFailed),
            _ => self.fail(FlashError::UnexpectedEvent),
        }
    }
}

/// The decisions of a run fed with `es`, one event at a time, until the
/// run ends; events after its end are not looked at.
pub open spec fn run(s: FlashState, es: Seq<FlashEvent>) -> (FlashState, Seq<FlashStep>)
    decreases es.len(),
{
    if es.len() == 0 || !s.active {
        (s, Seq::empty())
    } else {
        let (t, st) = next(s, es[0]);
        let (u, rest) = run(t, es.drop_first());
        (u, seq![st] + rest)
    }
}

/// The global percent of an emitting step.
pub open spec fn emitted(st: FlashStep) -> u32 {
    st.emit->Some_0.percent
}

/// True for the actions that download or extract the image.
pub open spec fn fetches(a: FlashAction) -> bool {
    a is Download || a is Extract
}

/// The stages from which the image is never fetched again.
pub open spec fn past_image(stage: FlashStage) -> bool {
    match stage {
        FlashStage::VerifyDevice | FlashStage::Unmount | FlashStage::Write | FlashStage::Configure
        | FlashStage::Eject | FlashStage::Done | FlashStage::Failed => true,
        _ => false,
    }
}

proof fn lemma_window_bounds(p: Phase, sub: u32)
    requires
        sub <= 100,
    ensures
        window_start(p) <= in_window(p, sub) <= window_end(p),
{
    let w = (window_end(p) - window_start(p)) as int;
    assert(0 <= sub * w / 100 <= w) by (nonlinear_arith)
        requires
            sub <= 100,
            0 <= w,
    ;
}

/// One decision keeps the state well formed and never lowers the percent;
/// an emitted percent is the new percent; the device path never changes;
/// exactly the terminal actions release the lock.
pub proof fn lemma_next(s: FlashState, e: FlashEvent)
    requires
        state_wf(s),
        s.active,
    ensures
        state_wf(next(s, e).0),
        next(s, e).0.path == s.path,
        s.percent <= next(s, e).0.percent,
        next(s, e).1.emit is Some ==> emitted(next(s, e).1) == next(s, e).0.percent,
        next(s, e).1.emit is None ==> next(s, e).0.percent == s.percent,
        is_terminal(next(s, e).1.action) <==> !next(s, e).0.active,
        next(s, e).0.stage is Done ==> next(s, e).1.emit == Some(
            Emission { phase: Phase::Complete, percent: 100, milestone: Milestone::Ready },
        ),
{
    match e {
        FlashEvent::DownloadProgress { downloaded, total } => {
            lemma_window_bounds(Phase::Download, ratio_percent(downloaded, total, 100));
        },
        FlashEvent::WriteProgress { written, total } => {
            lemma_window_bounds(Phase::Write, ratio_percent(written, total, 99));
        },
        _ => {},
    }
}

/// Progress monotonicity: within one run, emitted global percents never
/// decrease, never fall below the percent already shown, and stay within
/// 0-100.
pub proof fn lemma_progress_monotone(s: FlashState, es: Seq<FlashEvent>)
    requires
        state_wf(s),
    ensures
        state_wf(run(s, es).0),
        s.percent <= run(s, es).0.percent,
        forall|i: int|
            0 <= i < run(s, es).1.len() && (#[trigger] run(s, es).1[i]).emit is Some ==> s.percent
                <= emitted(run(s, es).1[i]) <= run(s, es).0.percent,
        forall|i: int, j: int|
            0 <= i < j < run(s, es).1.len() && (#[trigger] run(s, es).1[i]).emit is Some && (
            #[trigger] run(s, es).1[j]).emit is Some ==> emitted(run(s, es).1[i]) <= emitted(
                run(s, es).1[j],
            ),
    decreases es.len(),
{
    if es.len() == 0 || !s.active {
    } else {
        let (t, st) = next(s, es[0]);
        lemma_next(s, es[0]);
        lemma_progress_monotone(t, es.drop_first());
        let (u, rest) = run(t, es.drop_first());
        let steps = seq![st] + rest;
        assert(run(s, es).1 == steps);
        assert forall|i: int|
            0 <= i < steps.len() && (#[trigger] steps[i]).emit is Some implies s.percent
                <= emitted(steps[i]) <= u.percent by {
            if i > 0 {
                assert(steps[i] == rest[i - 1]);
            }
        }
        assert forall|i: int, j: int|
            0 <= i < j < steps.len() && (#[trigger] steps[i]).emit is Some && (
            #[trigger] steps[j]).emit is Some implies emitted(steps[i]) <= emitted(steps[j]) by {
            assert(steps[j] == rest[j - 1]);
            if i > 0 {
                assert(steps[i] == rest[i - 1]);
            }
        }
    }
}

/// A run that succeeds ends on an emitted 100 (phase `complete`) with
/// `Finish`, and then no longer holds the lock.
pub proof fn lemma_success_ends_at_100(s: FlashState, es: Seq<FlashEvent>)
    requires
        state_wf(s),
        s.active,
        run(s, es).0.stage is Done,
    ensures
        run(s, es).1.len() > 0,
        run(s, es).1.last().action == FlashAction::Finish,
        run(s, es).1.last().emit == Some(
            Emission { phase: Phase::Complete, percent: 100, milestone: Milestone::Ready },
        ),
        !run(s, es).0.active,
    decreases es.len(),
{
    if es.len() == 0 {
    } else {
        let (t, st) = next(s, es[0]);
        lemma_next(s, es[0]);
        let (u, rest) = run(t, es.drop_first());
        if t.active {
            lemma_success_ends_at_100(t, es.drop_first());
            assert((seq![st] + rest).last() == rest.last());
        } else {
            assert(rest.len() == 0);
            assert((seq![st] + rest) =~= seq![st]);
        }
    }
}

/// The lock is released exactly when the run has reached its end: a run
/// fed with events is still holding the lock only if its last decision was
/// not terminal.
pub proof fn lemma_lock_released_at_end(s: FlashState, es: Seq<FlashEvent>)
    requires
        state_wf(s),
        s.active,
    ensures
        !run(s, es).0.active <==> (run(s, es).1.len() > 0 && is_terminal(run(s, es).1.last().action)),
    decreases es.len(),
{
    if es.len() == 0 {
    } else {
        let (t, st) = next(s, es[0]);
        lemma_next(s, es[0]);
        let (u, rest) = run(t, es.drop_first());
        if t.active {
            lemma_lock_released_at_end(t, es.drop_first());
            if rest.len() > 0 {
                assert((seq![st] + rest).last() == rest.last());
            }
        } else {
            assert((seq![st] + rest) =~= seq![st]);
        }
    }
}

/// Single flight: a second request while a run holds the lock fails fast
/// with `Busy` and changes nothing; once that run has ended, on success or
/// on failure, a new request is accepted.
pub proof fn lemma_single_flight(s: FlashState, path: Seq<char>, other: Seq<char>, es: Seq<FlashEvent>)
    requires
        state_wf(s),
        !s.active,
    ensures
        begin_spec(begin_spec(s, path).0, other) == (
            begin_spec(s, path).0,
            Err::<FlashAction, FlashError>(FlashError::Busy),
        ),
        ({
            let r = run(begin_spec(s, path).0, es);
            r.1.len() > 0 && is_terminal(r.1.last().action) ==> begin_spec(r.0, other).1
                == Ok::<FlashAction, FlashError>(FlashAction::ProbeDevice)
        }),
{
    lemma_lock_released_at_end(begin_spec(s, path).0, es);
}

proof fn lemma_no_fetch_past_image(s: FlashState, es: Seq<FlashEvent>)
    requires
        past_image(s.stage),
    ensures
        forall|i: int| 0 <= i < run(s, es).1.len() ==> !fetches((#[trigger] run(s, es).1[i]).action),
    decreases es.len(),
{
    if es.len() == 0 || !s.active {
    } else {
        let (t, st) = next(s, es[0]);
        lemma_no_fetch_past_image(t, es.drop_first());
        let (u, rest) = run(t, es.drop_first());
        assert forall|i: int| 0 <= i < (seq![st] + rest).len() implies !fetches(
            (#[trigger] (seq![st] + rest)[i]).action,
        ) by {
            if i > 0 {
                assert((seq![st] + rest)[i] == rest[i - 1]);
            }
        }
    }
}

/// Idempotent resume: once the image is found already extracted in the
/// cache, the run never downloads nor extracts it again.
pub proof fn lemma_resume_skips_fetch(s: FlashState, cached: bool, es: Seq<FlashEvent>)
    requires
        state_wf(s),
        s.active,
        s.stage is ResolveImage,
    ensures
        ({
            let r = run(s, seq![FlashEvent::ImageResolved { cached, extracted: true }] + es);
            forall|i: int| 0 <= i < r.1.len() ==> !fetches((#[trigger] r.1[i]).action)
        }),
{
    let e0 = FlashEvent::ImageResolved { cached, extracted: true };
    let all = seq![e0] + es;
    assert(all[0] == e0);
    assert(all.drop_first() =~= es);
    let (t, st) = next(s, e0);
    lemma_no_fetch_past_image(t, es);
    let (u, rest) = run(t, es);
    assert forall|i: int| 0 <= i < (seq![st] + rest).len() implies !fetches(
        (#[trigger] (seq![st] + rest)[i]).action,
    ) by {
        if i > 0 {
            assert((seq![st] + rest)[i] == rest[i - 1]);
        }
    }
}

/// A device that fails the safety check at selection time stops the run at
/// once: the only decision is the safety refusal, so nothing is downloaded
/// or written.
pub proof fn lemma_unsafe_device_rejected_first(
    s: FlashState,
    path: Seq<char>,
    size: u64,
    es: Seq<FlashEvent>,
)
    requires
        state_wf(s),
        !s.active,
        !crate::safety::safe_to_flash(path, size),
    ensures
        ({
            let r = run(begin_spec(s, path).0, seq![FlashEvent::DeviceSize(size)] + es);
            &&& r.1.len() == 1
            &&& r.1[0].action == FlashAction::Abort(
                FlashError::Safety(safety_verdict(path, size)->Err_0),
            )
            &&& r.0.stage is Failed
            &&& !r.0.active
        }),
{
    let b = begin_spec(s, path).0;
    let all = seq![FlashEvent::DeviceSize(size)] + es;
    assert(all[0] == FlashEvent::DeviceSize(size));
    let (t, st) = next(b, all[0]);
    assert(!t.active);
    assert(run(t, all.drop_first()).1.len() == 0);
}

/// The safety predicate is re-evaluated right before the destructive steps:
/// the run only reaches `Unmount` from `VerifyDevice`, on a freshly reported
/// size that passes the check, and the image is only written from `Unmount`.
pub proof fn lemma_write_follows_fresh_check(s: FlashState, e: FlashEvent)
    requires
        state_wf(s),
        s.active,
    ensures
        next(s, e).1.action is WriteImage ==> s.stage is Unmount,
        next(s, e).0.stage is Unmount && !(s.stage is Unmount) ==> s.stage is VerifyDevice && (
        e matches FlashEvent::DeviceSize(size) && crate::safety::safe_to_flash(s.path, size)),
{
}

/// The events of a resumed run that succeeds from the image lookup on:
/// found already extracted, the device checked again, then unmount, write,
/// first-boot configuration and eject all succeed.
pub open spec fn resumed_success(cached: bool, size: u64) -> Seq<FlashEvent> {
    seq![
        FlashEvent::ImageResolved { cached, extracted: true },
        FlashEvent::DeviceSize(size),
        FlashEvent::StepDone,
        FlashEvent::StepDone,
        FlashEvent::StepDone,
        FlashEvent::StepDone,
    ]
}

/// Idempotent resume completes: with the image found extracted in the cache
/// and every later step succeeding, the run ends `Done` with `Finish` at
/// 100, without downloading or extracting.
pub proof fn lemma_resume_completes(s: FlashState, cached: bool, size: u64)
    requires
        state_wf(s),
        s.active,
        s.stage is ResolveImage,
        crate::safety::safe_to_flash(s.path, size),
    ensures
        ({
            let r = run(s, resumed_success(cached, size));
            &&& r.0.stage is Done
            &&& !r.0.active
            &&& r.1.len() == 6
            &&& r.1.last().action == FlashAction::Finish
            &&& r.1.last().emit == Some(
                Emission { phase: Phase::Complete, percent: 100, milestone: Milestone::Ready },
            )
            &&& forall|i: int| 0 <= i < r.1.len() ==> !fetches((#[trigger] r.1[i]).action)
        }),
{
    let es = resumed_success(cached, size);
    reveal_with_fuel(run, 7);
    assert(es.drop_first() =~= seq![
        FlashEvent::DeviceSize(size),
        FlashEvent::StepDone,
        FlashEvent::StepDone,
        FlashEvent::StepDone,
        FlashEvent::StepDone,
    ]);
    assert(es.drop_first().drop_first() =~= seq![
        FlashEvent::StepDone,
        FlashEvent::StepDone,
        FlashEvent::StepDone,
        FlashEvent::StepDone,
    ]);
    assert(es.drop_first().drop_first().drop_first() =~= seq![
        FlashEvent::StepDone,
        FlashEvent::StepDone,
        FlashEvent::StepDone,
    ]);
    assert(es.drop_first().drop_first().drop_first().drop_first() =~= seq![
        FlashEvent::StepDone,
        FlashEvent::StepDone,
    ]);
    assert(es.drop_first().drop_first().drop_first().drop_first().drop_first() =~= seq![
        FlashEvent::StepDone,
    ]);
    lemma_resume_skips_fetch(s, cached, es.drop_first());
    assert(seq![FlashEvent::ImageResolved { cached, extracted: true }] + es.drop_first() =~= es);
    lemma_success_ends_at_100(s, es);
}

/// With only the archive cached, the run extracts next and does not download.
pub proof fn lemma_cached_archive_extracts(s: FlashState)
    requires
        state_wf(s),
        s.active,
        s.stage is ResolveImage,
    ensures
        next(s, FlashEvent::ImageResolved { cached: true, extracted: false }).1.action == FlashAction::Extract,
        next(s, FlashEvent::ImageResolved { cached: true, extracted: false }).0.stage is Extract,
{
}

/// The position of a phase in the fixed phase order.
pub open spec fn phase_rank(p: Phase) -> int {
    match p {
        Phase::Download => 0,
        Phase::Write => 1,
        Phase::Configure => 2,
        Phase::Eject => 3,
        Phase::Complete => 4,
    }
}

/// The phase rank of the progress emitted on entering a stage.
pub open spec fn stage_floor(st: FlashStage) -> int {
    match st {
        FlashStage::Write => 1,
        FlashStage::Configure => 2,
        FlashStage::Eject => 3,
        FlashStage::Done => 4,
        _ => 0,
    }
}

/// The phase rank of an emitting step.
pub open spec fn emitted_rank(st: FlashStep) -> int {
    phase_rank(st.emit->Some_0.phase)
}

proof fn lemma_next_phase(s: FlashState, e: FlashEvent)
    requires
        state_wf(s),
        s.active,
    ensures
        !(next(s, e).0.stage is Failed) ==> next(s, e).1.emit is Some && emitted_rank(next(s, e).1)
            == stage_floor(next(s, e).0.stage) && stage_floor(s.stage) <= stage_floor(next(s, e).0.stage)
            <= stage_floor(s.stage) + 1,
{
}

/// Phase order of a successful run: every decision emits progress, the
/// phase rank of consecutive events rises by 0 or 1, and the last event is
/// in phase `complete`.
pub proof fn lemma_success_phase_order(s: FlashState, es: Seq<FlashEvent>)
    requires
        state_wf(s),
        s.active,
        run(s, es).0.stage is Done,
    ensures
        ({
            let st = run(s, es).1;
            &&& st.len() > 0
            &&& forall|i: int| 0 <= i < st.len() ==> (#[trigger] st[i]).emit is Some
            &&& forall|i: int|
                0 <= i < st.len() - 1 ==> emitted_rank(#[trigger] st[i]) <= emitted_rank(st[i + 1])
                    <= emitted_rank(st[i]) + 1
            &&& emitted_rank(st[0]) == stage_floor(next(s, es[0]).0.stage)
            &&& stage_floor(s.stage) <= emitted_rank(st[0])
            &&& emitted_rank(st.last()) == 4
        }),
    decreases es.len(),
{
    lemma_next(s, es[0]);
    lemma_next_phase(s, es[0]);
    let (t, st) = next(s, es[0]);
    let (u, rest) = run(t, es.drop_first());
    let all = seq![st] + rest;
    assert(run(s, es).1 == all);
    if t.active {
        lemma_success_phase_order(t, es.drop_first());
        lemma_next_phase(t, es.drop_first()[0]);
        assert(all.last() == rest.last());
        assert forall|i: int| 0 <= i < all.len() implies (#[trigger] all[i]).emit is Some by {
            if i > 0 {
                assert(all[i] == rest[i - 1]);
            }
        }
        assert forall|i: int| 0 <= i < all.len() - 1 implies emitted_rank(#[trigger] all[i]) <= emitted_rank(
            all[i + 1],
        ) <= emitted_rank(all[i]) + 1 by {
            assert(all[i + 1] == rest[i]);
            if i > 0 {
                assert(all[i] == rest[i - 1]);
            }
        }
    } else {
        assert(rest.len() == 0);
        assert(all =~= seq![st]);
    }
}

/// The phases of a successful flash: from `begin`, the first event is in
/// phase `download`, every event carries a phase, phases never go back and
/// never skip one, and the last is `complete`; so with repeats collapsed the
/// phases are exactly download, write, configure, eject, complete.
pub proof fn lemma_success_phases(s: FlashState, path: Seq<char>, es: Seq<FlashEvent>)
    requires
        state_wf(s),
        !s.active,
        run(begin_spec(s, path).0, es).0.stage is Done,
    ensures
        ({
            let st = run(begin_spec(s, path).0, es).1;
            &&& st.len() > 0
            &&& forall|i: int| 0 <= i < st.len() ==> (#[trigger] st[i]).emit is Some
            &&& forall|i: int|
                0 <= i < st.len() - 1 ==> emitted_rank(#[trigger] st[i]) <= emitted_rank(st[i + 1])
                    <= emitted_rank(st[i]) + 1
            &&& emitted_rank(st[0]) == 0
            &&& emitted_rank(st.last()) == 4
        }),
{
    let b = begin_spec(s, path).0;
    lemma_success_phase_order(b, es);
    lemma_next_phase(b, es[0]);
}

} // verus!
