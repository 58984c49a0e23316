//! A factory that saves one virtual machine as a template and makes all others from it.

use vstd::prelude::*;
use vstd::string::*;

use crate::ch::hypervisor::{boot_kind_of, BootKind};
use crate::ch::inner::CloudHypervisorInner;
use crate::config::{FactoryConfig, HypervisorConfig, PartNames, TomlConfig, VmTemplateInfo};
use crate::decimal::{decimal, decimal_str};
use crate::factory::base::{CloseStep, FactoryBase};
use crate::factory::vm::{find_hypervisor, hypervisor_kind, HypervisorKind, VMConfig};
use crate::migration::{
    directory_of, file_in, law_file_url_round_trip, FileKind, PlaceError, SNAPSHOT_CONFIG_FILE,
    SNAPSHOT_STATE_FILE,
};
use crate::path::{join_path, path_join};
use crate::text::{concat2, concat3, split, split_str, str_eq, texts, words, words_of};

verus! {

broadcast use vstd::string::group_string_axioms;

/// Room for the state of the devices beside the memory, in MiB.
pub const TEMPLATE_DEVICE_STATE_SIZE: u32 = 8;

/// How long to wait for the agent before the template is saved, in seconds.
pub const TEMPLATE_WAIT_FOR_AGENT_SECS: u64 = 2;

/// How long the template's virtual machine may take to start.
pub const TEMPLATE_START_TIMEOUT: i32 = 10_000;

/// The permissions of the template's directory: the owner does everything, nobody else anything.
pub const TEMPLATE_DIR_MODE: u32 = 0o700;

/// QEMU's file for the memory.
pub const MEMORY_FILE: &'static str = "memory";

/// QEMU's file for the state of the devices.
pub const STATE_FILE: &'static str = "state";

/// The file system that the template is kept on.
pub const TMPFS: &'static str = "tmpfs";

/// How far a container has come.
#[derive(Clone, Copy, Debug, PartialEq, Eq, Structural)]
pub enum ContainerState {
    /// It is being created.
    Creating,
    /// It is created.
    Created,
    /// It runs.
    Running,
    /// It has stopped.
    Stopped,
}

/// The configuration of a sandbox, as far as a template has one; what is not listed is empty.
#[derive(Debug)]
pub struct SandboxConfig {
    /// The sandbox.
    pub sandbox_id: String,
    /// The name of its host.
    pub hostname: String,
    /// Its name servers.
    pub dns: Vec<String>,
    /// The sandbox in its state.
    pub state_id: String,
    /// How far it has come.
    pub status: ContainerState,
    /// Its process.
    pub pid: i32,
    /// Its bundle.
    pub bundle: String,
    /// The size of its shared memory.
    pub shm_size: u64,
}

/// The configuration of the sandbox that becomes the template: nothing is known of it yet.
pub fn default_sandbox_config() -> (r: SandboxConfig)
    ensures
        r.sandbox_id@.len() == 0,
        r.hostname@.len() == 0,
        r.dns@.len() == 0,
        r.state_id@.len() == 0,
        r.status == ContainerState::Creating,
        r.pid == 0,
        r.bundle@.len() == 0,
        r.shm_size == 0,
{
    SandboxConfig {
        sandbox_id: String::new(),
        hostname: String::new(),
        dns: Vec::new(),
        state_id: String::new(),
        status: ContainerState::Creating,
        pid: 0,
        bundle: String::new(),
        shm_size: 0,
    }
}

/// Why there is no template.
#[derive(Debug)]
pub enum TemplateError {
    /// The configuration is not valid.
    InvalidConfig(String),
    /// There is one already.
    FileExists,
    /// There is none yet.
    FileNotExists,
    /// The hypervisor cannot do it.
    NotSupported(String),
    /// The virtual machine could not be saved.
    CreateFailed,
    /// The place for it could not be prepared.
    PrepareFailed,
}

impl TemplateError {
    /// The error in words.
    pub open spec fn text(&self) -> Seq<char> {
        match self {
            TemplateError::InvalidConfig(what) => "invalid config: "@ + what@,
            TemplateError::FileExists => "template file exists."@,
            TemplateError::FileNotExists => "template file not exists."@,
            TemplateError::NotSupported(name) => {
                "template is not supported by hypervisor type: "@ + name@
            },
            TemplateError::CreateFailed => "template create failed"@,
            TemplateError::PrepareFailed => "template prepare failed"@,
        }
    }

    /// The error in words.
    pub fn message(&self) -> (r: String)
        ensures
            r@ == self.text(),
    {
        match self {
            TemplateError::InvalidConfig(what) => concat2("invalid config: ", what.as_str()),
            TemplateError::FileExists => "template file exists.".to_owned(),
            TemplateError::FileNotExists => "template file not exists.".to_owned(),
            TemplateError::NotSupported(name) => concat2(
                "template is not supported by hypervisor type: ",
                name.as_str(),
            ),
            TemplateError::CreateFailed => "template create failed".to_owned(),
            TemplateError::PrepareFailed => "template prepare failed".to_owned(),
        }
    }
}

/// Whether some line of the host's mount table names `path` as its mount point.
pub open spec fn mounted_at(mounts: Seq<char>, path: Seq<char>) -> bool {
    exists|i: int|
        0 <= i < split(mounts, '\n').len() && mount_point(#[trigger] split(mounts, '\n')[i])
            == Some(path)
}

/// The mount point in a line of the mount table: its second word.
pub open spec fn mount_point(line: Seq<char>) -> Option<Seq<char>> {
    if words(line).len() >= 2 {
        Some(words(line)[1])
    } else {
        None
    }
}

/// Whether something is mounted at a path, by the host's mount table.
pub fn is_mounted(mounts: &str, path: &str) -> (r: bool)
    ensures
        r == mounted_at(mounts@, path@),
{
    let lines = split_str(mounts, '\n');
    let ghost all = split(mounts@, '\n');
    let mut i: usize = 0;
    while i < lines.len()
        invariant
            i <= lines@.len(),
            texts(lines@) == all,
            all == split(mounts@, '\n'),
            forall|k: int| 0 <= k < i ==> mount_point(#[trigger] all[k]) != Some(path@),
        decreases lines@.len() - i,
    {
        assert(texts(lines@)[i as int] == lines@[i as int]@);
        let parts = words_of(lines[i].as_str());
        assert(texts(parts@).len() == parts@.len());
        if parts.len() >= 2 {
            assert(texts(parts@)[1] == parts@[1]@);
            if str_eq(parts[1].as_str(), path) {
                assert(mount_point(all[i as int]) == Some(path@));
                return true;
            }
        }
        i = i + 1;
    }
    assert(texts(lines@).len() == lines@.len());
    false
}

/// How a template comes about.
#[derive(Clone, Copy, Debug, PartialEq, Eq, Structural)]
pub enum TemplatePlan {
    /// It is there.
    Ready,
    /// It has to be made with this hypervisor.
    Create(HypervisorKind),
}

/// Why no template comes about.
pub enum PlanRefusal {
    /// The hypervisor cannot do it.
    NotSupported,
    /// It is only looked for, and it is there.
    FileExists,
    /// It is only looked for, and it is not there.
    FileNotExists,
}

/// How a template comes about: one that is there is used, or reported where it is only looked for;
/// one that is not there is made, unless it is only looked for.
pub open spec fn template_plan(
    hypervisor_name: Seq<char>,
    names: PartNames,
    exists_already: bool,
    fetch_only: bool,
) -> Result<TemplatePlan, PlanRefusal> {
    match hypervisor_kind(hypervisor_name, names) {
        None => Err(PlanRefusal::NotSupported),
        Some(kind) => if exists_already {
            if fetch_only {
                Err(PlanRefusal::FileExists)
            } else {
                Ok(TemplatePlan::Ready)
            }
        } else if fetch_only {
            Err(PlanRefusal::FileNotExists)
        } else {
            Ok(TemplatePlan::Create(kind))
        },
    }
}

/// A stage of making a template.
#[derive(Clone, Copy, Debug, PartialEq, Eq, Structural)]
pub enum CreateStage {
    /// The place for it is prepared.
    Prepare,
    /// The virtual machine is started and saved.
    SaveVm,
}

/// What comes after a stage of making a template: the next stage, nothing once the template is
/// there, or the failure of this one. The place is prepared first, before anything is done.
pub open spec fn after_stage(
    done: Option<CreateStage>,
    worked: bool,
) -> Result<Option<CreateStage>, CreateStage> {
    match done {
        None => Ok(Some(CreateStage::Prepare)),
        Some(stage) => if !worked {
            Err(stage)
        } else if stage == CreateStage::Prepare {
            Ok(Some(CreateStage::SaveVm))
        } else {
            Ok(None)
        },
    }
}

/// What comes after a stage of making a template: the next stage, nothing once the template is
/// there, or the failure of this one.
pub fn next_stage(
    done: Option<CreateStage>,
    worked: bool,
) -> (r: Result<Option<CreateStage>, CreateStage>)
    ensures
        r == after_stage(done, worked),
{
    match done {
        None => Ok(Some(CreateStage::Prepare)),
        Some(stage) => {
            if !worked {
                return Err(stage);
            }
            match stage {
                CreateStage::Prepare => Ok(Some(CreateStage::SaveVm)),
                CreateStage::SaveVm => Ok(None),
            }
        },
    }
}

/// What is done when a stage fails.
#[derive(Debug)]
pub struct StageFailure {
    /// What is reported.
    pub error: TemplateError,
    /// Whether the place is given up again.
    pub close: bool,
}

/// What is done when a stage of making a template fails.
pub fn stage_failed(kind: HypervisorKind, stage: CreateStage) -> (r: StageFailure)
    ensures
        r.close == (kind == HypervisorKind::CloudHypervisor),
        stage == CreateStage::Prepare ==> r.error is PrepareFailed,
        stage == CreateStage::SaveVm ==> r.error is CreateFailed,
{
    let error = match stage {
        CreateStage::Prepare => TemplateError::PrepareFailed,
        CreateStage::SaveVm => TemplateError::CreateFailed,
    };
    let close = match kind {
        HypervisorKind::CloudHypervisor => true,
        HypervisorKind::Qemu => false,
    };
    StageFailure { error, close }
}

/// The files of a template.
pub open spec fn template_files(kind: HypervisorKind, path: Seq<char>) -> Seq<Seq<char>> {
    match kind {
        HypervisorKind::CloudHypervisor => seq![
            path_join(path, "memory-ranges"@),
            path_join(path, "state.json"@),
            path_join(path, "config.json"@),
        ],
        HypervisorKind::Qemu => seq![
            path_join(path, MEMORY_FILE@),
            path_join(path, STATE_FILE@),
        ],
    }
}

/// Whether a template is there, by which of its files are.
pub fn check_template_vm(files_found: &Vec<bool>) -> (r: bool)
    ensures
        r == (forall|i: int| 0 <= i < files_found@.len() ==> #[trigger] files_found@[i]),
{
    let mut i: usize = 0;
    while i < files_found.len()
        invariant
            i <= files_found@.len(),
            forall|k: int| 0 <= k < i ==> #[trigger] files_found@[k],
        decreases files_found@.len() - i,
    {
        if !files_found[i] {
            return false;
        }
        i = i + 1;
    }
    true
}

/// A step of preparing the place for a template.
#[derive(Debug)]
pub enum PrepareStep {
    /// Create a directory and its parents.
    CreateDir(String),
    /// Close a directory to everybody but its owner.
    SetPrivate(String),
    /// Make sure that something is there.
    RequireExists(String),
    /// Mount a `tmpfs`, with these options, from which no program gets rights or devices.
    MountTmpfs(String, String),
    /// Make sure that it is a directory.
    RequireDir(String),
    /// Create an empty file.
    CreateFile(String),
}

/// The contents of a [`PrepareStep`].
pub enum PrepareStepView {
    /// Create a directory and its parents.
    CreateDir(Seq<char>),
    /// Close a directory to everybody but its owner.
    SetPrivate(Seq<char>),
    /// Make sure that something is there.
    RequireExists(Seq<char>),
    /// Mount a `tmpfs`, with these options.
    MountTmpfs(Seq<char>, Seq<char>),
    /// Make sure that it is a directory.
    RequireDir(Seq<char>),
    /// Create an empty file.
    CreateFile(Seq<char>),
}

impl View for PrepareStep {
    type V = PrepareStepView;

    open spec fn view(&self) -> PrepareStepView {
        match self {
            PrepareStep::CreateDir(p) => PrepareStepView::CreateDir(p@),
            PrepareStep::SetPrivate(p) => PrepareStepView::SetPrivate(p@),
            PrepareStep::RequireExists(p) => PrepareStepView::RequireExists(p@),
            PrepareStep::MountTmpfs(p, o) => PrepareStepView::MountTmpfs(p@, o@),
            PrepareStep::RequireDir(p) => PrepareStepView::RequireDir(p@),
            PrepareStep::CreateFile(p) => PrepareStepView::CreateFile(p@),
        }
    }
}

/// The contents of a list of steps.
pub open spec fn prepare_view(list: Seq<PrepareStep>) -> Seq<PrepareStepView> {
    list.map_values(|s: PrepareStep| s@)
}

/// Whether the template's directory is removed where a step of preparing it fails, `steps_done` of
/// them having worked: Cloud Hypervisor's is, once it was created.
pub fn remove_dir_on_failure(kind: HypervisorKind, steps_done: usize) -> (r: bool)
    ensures
        r == (kind == HypervisorKind::CloudHypervisor && steps_done > 0),
{
    match kind {
        HypervisorKind::CloudHypervisor => steps_done > 0,
        HypervisorKind::Qemu => false,
    }
}

/// The mount option for a file system that holds `memory_mb` of memory and the state of the
/// devices.
pub open spec fn size_option(memory_mb: u32) -> Seq<char> {
    "size="@ + decimal((memory_mb + TEMPLATE_DEVICE_STATE_SIZE) as nat) + "M"@
}

/// The mount option for a file system that holds `memory_mb` of memory.
fn size_text(memory_mb: u32) -> (r: String)
    requires
        memory_mb + TEMPLATE_DEVICE_STATE_SIZE <= u32::MAX,
    ensures
        r@ == size_option(memory_mb),
{
    let size: u32 = memory_mb + TEMPLATE_DEVICE_STATE_SIZE;
    concat3("size=", decimal_str(size as u64).as_str(), "M")
}

/// A step of saving a virtual machine as the template.
#[derive(Clone, Copy, Debug, PartialEq, Eq, Structural)]
pub enum SaveStep {
    /// Prepare the virtual machine.
    PrepareVm,
    /// Work out what the sandbox needs.
    PrepareSandbox,
    /// Set the devices up that it boots with.
    PrepareBeforeStart,
    /// Start it.
    StartVm,
    /// Connect to its agent.
    ConnectAgent,
    /// Set the devices up that it gets once it runs.
    SetupAfterStart,
    /// Let go of its agent.
    DisconnectAgent,
    /// Give the agent time.
    Wait,
    /// Pause it.
    Pause,
    /// Save it.
    Save,
    /// Stop it.
    Stop,
    /// Remove what it left behind.
    Cleanup,
}

/// The steps of saving a virtual machine as the template, in order. QEMU's is started beforehand.
pub open spec fn save_steps(kind: HypervisorKind) -> Seq<SaveStep> {
    match kind {
        HypervisorKind::CloudHypervisor => seq![
            SaveStep::PrepareVm,
            SaveStep::PrepareSandbox,
            SaveStep::PrepareBeforeStart,
            SaveStep::StartVm,
            SaveStep::ConnectAgent,
            SaveStep::SetupAfterStart,
            SaveStep::Wait,
            SaveStep::Pause,
            SaveStep::Save,
            SaveStep::Stop,
            SaveStep::Cleanup,
        ],
        HypervisorKind::Qemu => seq![
            SaveStep::DisconnectAgent,
            SaveStep::Wait,
            SaveStep::Pause,
            SaveStep::Save,
        ],
    }
}

/// The steps of saving a virtual machine as the template, in order.
pub fn template_vm_steps(kind: HypervisorKind) -> (r: Vec<SaveStep>)
    ensures
        r@ == save_steps(kind),
{
    match kind {
        HypervisorKind::CloudHypervisor => vec![
            SaveStep::PrepareVm,
            SaveStep::PrepareSandbox,
            SaveStep::PrepareBeforeStart,
            SaveStep::StartVm,
            SaveStep::ConnectAgent,
            SaveStep::SetupAfterStart,
            SaveStep::Wait,
            SaveStep::Pause,
            SaveStep::Save,
            SaveStep::Stop,
            SaveStep::Cleanup,
        ],
        HypervisorKind::Qemu => vec![
            SaveStep::DisconnectAgent,
            SaveStep::Wait,
            SaveStep::Pause,
            SaveStep::Save,
        ],
    }
}

/// The step of saving a virtual machine that follows another, if one does.
pub open spec fn following_save_step(kind: HypervisorKind, step: SaveStep) -> Option<SaveStep> {
    match (kind, step) {
        (HypervisorKind::CloudHypervisor, SaveStep::PrepareVm) => Some(SaveStep::PrepareSandbox),
        (HypervisorKind::CloudHypervisor, SaveStep::PrepareSandbox) => Some(
            SaveStep::PrepareBeforeStart,
        ),
        (HypervisorKind::CloudHypervisor, SaveStep::PrepareBeforeStart) => Some(SaveStep::StartVm),
        (HypervisorKind::CloudHypervisor, SaveStep::StartVm) => Some(SaveStep::ConnectAgent),
        (HypervisorKind::CloudHypervisor, SaveStep::ConnectAgent) => Some(
            SaveStep::SetupAfterStart,
        ),
        (HypervisorKind::CloudHypervisor, SaveStep::SetupAfterStart) => Some(SaveStep::Wait),
        (HypervisorKind::Qemu, SaveStep::DisconnectAgent) => Some(SaveStep::Wait),
        (_, SaveStep::Wait) => Some(SaveStep::Pause),
        (_, SaveStep::Pause) => Some(SaveStep::Save),
        (HypervisorKind::CloudHypervisor, SaveStep::Save) => Some(SaveStep::Stop),
        (HypervisorKind::CloudHypervisor, SaveStep::Stop) => Some(SaveStep::Cleanup),
        _ => None,
    }
}

/// What comes after a step of saving a virtual machine: the next step, nothing once it is saved, or
/// the failure of this one.
pub open spec fn after_save_step(
    kind: HypervisorKind,
    step: SaveStep,
    worked: bool,
) -> Result<Option<SaveStep>, SaveStep> {
    if worked {
        Ok(following_save_step(kind, step))
    } else {
        Err(step)
    }
}

/// What comes after a step of saving a virtual machine: the next step, nothing once it is saved, or
/// the failure of this one.
pub fn next_save_step(
    kind: HypervisorKind,
    step: SaveStep,
    worked: bool,
) -> (r: Result<Option<SaveStep>, SaveStep>)
    ensures
        r == after_save_step(kind, step, worked),
{
    if !worked {
        return Err(step);
    }
    let next = match kind {
        HypervisorKind::CloudHypervisor => match step {
            SaveStep::PrepareVm => Some(SaveStep::PrepareSandbox),
            SaveStep::PrepareSandbox => Some(SaveStep::PrepareBeforeStart),
            SaveStep::PrepareBeforeStart => Some(SaveStep::StartVm),
            SaveStep::StartVm => Some(SaveStep::ConnectAgent),
            SaveStep::ConnectAgent => Some(SaveStep::SetupAfterStart),
            SaveStep::SetupAfterStart => Some(SaveStep::Wait),
            SaveStep::Wait => Some(SaveStep::Pause),
            SaveStep::Pause => Some(SaveStep::Save),
            SaveStep::Save => Some(SaveStep::Stop),
            SaveStep::Stop => Some(SaveStep::Cleanup),
            _ => None,
        },
        HypervisorKind::Qemu => match step {
            SaveStep::DisconnectAgent => Some(SaveStep::Wait),
            SaveStep::Wait => Some(SaveStep::Pause),
            SaveStep::Pause => Some(SaveStep::Save),
            _ => None,
        },
    };
    Ok(next)
}

/// Whether the sandbox's resources are given back now: with Cloud Hypervisor once no step follows,
/// however the saving went. QEMU's virtual machine keeps them.
pub open spec fn resources_given_back(
    kind: HypervisorKind,
    next: Result<Option<SaveStep>, SaveStep>,
) -> bool {
    kind == HypervisorKind::CloudHypervisor && !(next matches Ok(Some(_)))
}

/// Whether the sandbox's resources are given back now, by what comes after a step of saving its
/// virtual machine.
pub fn gives_back_resources(
    kind: HypervisorKind,
    next: Result<Option<SaveStep>, SaveStep>,
) -> (r: bool)
    ensures
        r == resources_given_back(kind, next),
{
    match kind {
        HypervisorKind::CloudHypervisor => match next {
            Ok(Some(_)) => false,
            _ => true,
        },
        HypervisorKind::Qemu => false,
    }
}

/// What saving a virtual machine comes to. The sandbox's resources are given back however it went,
/// and a failure to do so comes first.
pub fn save_outcome<E>(saved: Result<(), E>, cleaned_up: Result<(), E>) -> (r: Result<(), E>)
    ensures
        r == (if cleaned_up is Err {
            cleaned_up
        } else {
            saved
        }),
{
    match cleaned_up {
        Err(e) => Err(e),
        Ok(_) => saved,
    }
}

/// Which side of the template a virtual machine is on.
#[derive(Clone, Copy, Debug, PartialEq, Eq, Structural)]
pub enum TemplateRole {
    /// It becomes the template.
    ToBe,
    /// It is made from the template.
    From,
}

/// Whether `r` holds the configuration `h` of a hypervisor for a virtual machine on one side of the
/// template at `path`. Cloud Hypervisor finds it by a URL, QEMU by two files.
pub open spec fn template_config(
    r: HypervisorConfig,
    h: HypervisorConfig,
    kind: HypervisorKind,
    role: TemplateRole,
    path: Seq<char>,
) -> bool {
    match kind {
        HypervisorKind::CloudHypervisor => {
            &&& r.factory.template_path@ == "file://"@ + path
            &&& r.same_as(
                HypervisorConfig {
                    vm_template: VmTemplateInfo {
                        boot_to_be_template: role == TemplateRole::ToBe,
                        boot_from_template: role == TemplateRole::From,
                        ..h.vm_template
                    },
                    factory: FactoryConfig { template_path: r.factory.template_path, ..h.factory },
                    ..h
                },
            )
        },
        HypervisorKind::Qemu => {
            &&& r.vm_template.memory_path@ == path_join(path, MEMORY_FILE@)
            &&& r.vm_template.device_state_path@ == path_join(path, STATE_FILE@)
            &&& r.same_as(
                HypervisorConfig {
                    vm_template: VmTemplateInfo {
                        boot_to_be_template: role == TemplateRole::ToBe,
                        boot_from_template: role == TemplateRole::From,
                        memory_path: r.vm_template.memory_path,
                        device_state_path: r.vm_template.device_state_path,
                    },
                    ..h
                },
            )
        },
    }
}

/// Turns the configuration of a hypervisor into that for one side of the template.
fn apply_template(h: &mut HypervisorConfig, kind: HypervisorKind, role: TemplateRole, path: &str)
    ensures
        template_config(*final(h), *old(h), kind, role, path@),
{
    match role {
        TemplateRole::ToBe => {
            h.vm_template.boot_to_be_template = true;
            h.vm_template.boot_from_template = false;
        },
        TemplateRole::From => {
            h.vm_template.boot_to_be_template = false;
            h.vm_template.boot_from_template = true;
        },
    }
    match kind {
        HypervisorKind::CloudHypervisor => {
            h.factory.template_path = concat2("file://", path);
        },
        HypervisorKind::Qemu => {
            h.vm_template.memory_path = join_path(path, MEMORY_FILE);
            h.vm_template.device_state_path = join_path(path, STATE_FILE);
        },
    }
}

/// Whether `r` is a copy of `config` with the hypervisor in use set up for one side of the
/// template.
pub open spec fn templated<A: Clone>(
    r: TomlConfig<A>,
    config: TomlConfig<A>,
    kind: HypervisorKind,
    role: TemplateRole,
    path: Seq<char>,
) -> bool {
    let name = config.hypervisor_name@;
    &&& r.hypervisor_name == config.hypervisor_name
    &&& r.agent_name == config.agent_name
    &&& r.agent.copy_of(config.agent)
    &&& r.factory == config.factory
    &&& r.hypervisor@.dom() == config.hypervisor@.dom()
    &&& forall|other: Seq<char>| #[trigger]
        config.hypervisor@.dom().contains(other) && other != name
            ==> r.hypervisor@[other].same_as(config.hypervisor@[other])
    &&& template_config(r.hypervisor@[name], config.hypervisor@[name], kind, role, path)
}

/// A copy of the configuration with the hypervisor in use set up for one side of the template; it
/// fails with the hypervisor's name where that is not configured.
pub fn with_template<A: Clone>(
    config: &TomlConfig<A>,
    kind: HypervisorKind,
    role: TemplateRole,
    path: &str,
) -> (r: Result<TomlConfig<A>, String>)
    ensures
        match r {
            Ok(c) => config.hypervisor@.dom().contains(config.hypervisor_name@) && templated(
                c,
                *config,
                kind,
                role,
                path@,
            ),
            Err(name) => !config.hypervisor@.dom().contains(config.hypervisor_name@) && name
                == config.hypervisor_name,
        },
{
    if !config.hypervisor.contains(config.hypervisor_name.as_str()) {
        return Err(config.hypervisor_name.clone());
    }
    let mut copy = config.clone();
    let ghost given = copy;
    let h = copy.hypervisor.get_mut(config.hypervisor_name.as_str());
    apply_template(h, kind, role, path);
    proof {
        let name = config.hypervisor_name@;
        assert forall|other: Seq<char>| #[trigger]
            config.hypervisor@.dom().contains(other) implies given.hypervisor@[other].same_as(
            config.hypervisor@[other],
        ) by {
            assert(cloned(config.hypervisor@[other], given.hypervisor@[other]));
        }
        assert(copy.hypervisor@.dom() =~= config.hypervisor@.dom());
    }
    Ok(copy)
}

/// Why no virtual machine comes from the template.
#[derive(Debug)]
pub enum FromTemplateError {
    /// The hypervisor cannot do it.
    NotSupported(String),
    /// The hypervisor in use is not configured.
    HypervisorNotFound(String),
}

/// A factory that makes virtual machines from a template.
#[derive(Debug)]
pub struct Template<A> {
    template_path: String,
    config: VMConfig<A>,
    names: PartNames,
}

impl<A> Template<A> {
    /// Where the template is kept.
    pub closed spec fn path(&self) -> Seq<char> {
        self.template_path@
    }

    /// The configuration.
    pub closed spec fn vm_config(&self) -> VMConfig<A> {
        self.config
    }

    /// What the parts of a virtual machine are called.
    pub closed spec fn part_names(&self) -> PartNames {
        self.names
    }

    /// The name of the hypervisor in use.
    pub open spec fn hypervisor(&self) -> Seq<char> {
        self.vm_config().config.hypervisor_name@
    }

    /// The hypervisor in use, if it is known.
    pub open spec fn kind(&self) -> Option<HypervisorKind> {
        hypervisor_kind(self.hypervisor(), self.part_names())
    }

    /// Whether the hypervisor in use is configured.
    pub open spec fn configured(&self) -> bool {
        self.vm_config().config.hypervisor@.dom().contains(self.hypervisor())
    }

    /// A factory for the template at a path. Whether the template is there is still to be seen.
    pub fn new(template_path: String, config: VMConfig<A>, names: PartNames) -> (r: Self)
        ensures
            r.path() == template_path@,
            r.vm_config() == config,
            r.part_names() == names,
    {
        Template { template_path, config, names }
    }

    /// Where the template is kept.
    pub fn template_path(&self) -> (r: &str)
        ensures
            r@ == self.path(),
    {
        self.template_path.as_str()
    }

    /// How the template comes about, by whether its files are there and whether it is only looked
    /// for. It fails for a hypervisor that cannot do it.
    pub fn plan(
        &self,
        files_exist: bool,
        fetch_only: bool,
    ) -> (r: Result<TemplatePlan, TemplateError>)
        ensures
            match template_plan(self.hypervisor(), self.part_names(), files_exist, fetch_only) {
                Ok(plan) => r == Ok::<TemplatePlan, TemplateError>(plan),
                Err(PlanRefusal::NotSupported) => r == Err::<TemplatePlan, TemplateError>(
                    TemplateError::NotSupported(self.vm_config().config.hypervisor_name),
                ),
                Err(PlanRefusal::FileExists) => r == Err::<TemplatePlan, TemplateError>(
                    TemplateError::FileExists,
                ),
                Err(PlanRefusal::FileNotExists) => r == Err::<TemplatePlan, TemplateError>(
                    TemplateError::FileNotExists,
                ),
            },
    {
        match find_hypervisor(self.config.config.hypervisor_name.as_str(), &self.names) {
            None => Err(TemplateError::NotSupported(self.config.hypervisor_name())),
            Some(kind) => {
                if files_exist {
                    if fetch_only {
                        Err(TemplateError::FileExists)
                    } else {
                        Ok(TemplatePlan::Ready)
                    }
                } else if fetch_only {
                    Err(TemplateError::FileNotExists)
                } else {
                    Ok(TemplatePlan::Create(kind))
                }
            },
        }
    }

    /// The files of the template; it is there where all of them are.
    pub fn files(&self, kind: HypervisorKind) -> (r: Vec<String>)
        ensures
            texts(r@) == template_files(kind, self.path()),
    {
        let path = self.template_path.as_str();
        let r = match kind {
            HypervisorKind::CloudHypervisor => vec![
                join_path(path, "memory-ranges"),
                join_path(path, "state.json"),
                join_path(path, "config.json"),
            ],
            HypervisorKind::Qemu => vec![join_path(path, MEMORY_FILE), join_path(path, STATE_FILE)],
        };
        proof {
            assert(texts(r@) =~= template_files(kind, self.path()));
        }
        r
    }

    /// The steps that prepare the place for Cloud Hypervisor's template: none where something is
    /// mounted there by the host's mount table. What is done where a step fails,
    /// [`remove_dir_on_failure`] says.
    pub fn prepare_clh_template_files(
        &self,
        mounts: &str,
        template_size: u32,
    ) -> (r: Vec<PrepareStep>)
        requires
            template_size + TEMPLATE_DEVICE_STATE_SIZE <= u32::MAX,
        ensures
            prepare_view(r@) == (if mounted_at(mounts@, self.path()) {
                Seq::<PrepareStepView>::empty()
            } else {
                seq![
                    PrepareStepView::CreateDir(self.path()),
                    PrepareStepView::SetPrivate(self.path()),
                    PrepareStepView::MountTmpfs(self.path(), size_option(template_size)),
                ]
            }),
    {
        if is_mounted(mounts, self.template_path.as_str()) {
            let r: Vec<PrepareStep> = Vec::new();
            proof {
                assert(prepare_view(r@) =~= Seq::<PrepareStepView>::empty());
            }
            return r;
        }
        let r = vec![
            PrepareStep::CreateDir(self.template_path.clone()),
            PrepareStep::SetPrivate(self.template_path.clone()),
            PrepareStep::MountTmpfs(self.template_path.clone(), size_text(template_size)),
        ];
        proof {
            assert(prepare_view(r@) =~= seq![
                PrepareStepView::CreateDir(self.path()),
                PrepareStepView::SetPrivate(self.path()),
                PrepareStepView::MountTmpfs(self.path(), size_option(template_size)),
            ]);
        }
        r
    }

    /// The steps that prepare the place for QEMU's template. The hypervisor in use must be
    /// configured.
    pub fn prepare_qemu_template_files(&self) -> (r: Vec<PrepareStep>)
        requires
            self.configured(),
            self.vm_config().config.hypervisor@[self.hypervisor()].memory_info.default_memory
                + TEMPLATE_DEVICE_STATE_SIZE <= u32::MAX,
        ensures
            prepare_view(r@) == seq![
                PrepareStepView::CreateDir(self.path()),
                PrepareStepView::RequireExists(self.path()),
                PrepareStepView::MountTmpfs(
                    self.path(),
                    size_option(
                        self.vm_config().config.hypervisor@[self.hypervisor()].memory_info.default_memory,
                    ),
                ),
                PrepareStepView::RequireDir(self.path()),
                PrepareStepView::CreateFile(path_join(self.path(), MEMORY_FILE@)),
                PrepareStepView::RequireExists(path_join(self.path(), MEMORY_FILE@)),
            ],
    {
        let memory_mb: u32 = match self.config.hypervisor_config() {
            Ok(h) => h.memory_info.default_memory,
            Err(_) => 0,
        };
        let path = self.template_path.as_str();
        let r = vec![
            PrepareStep::CreateDir(self.template_path.clone()),
            PrepareStep::RequireExists(self.template_path.clone()),
            PrepareStep::MountTmpfs(self.template_path.clone(), size_text(memory_mb)),
            PrepareStep::RequireDir(self.template_path.clone()),
            PrepareStep::CreateFile(join_path(path, MEMORY_FILE)),
            PrepareStep::RequireExists(join_path(path, MEMORY_FILE)),
        ];
        proof {
            assert(prepare_view(r@) =~= seq![
                PrepareStepView::CreateDir(self.path()),
                PrepareStepView::RequireExists(self.path()),
                PrepareStepView::MountTmpfs(self.path(), size_option(memory_mb)),
                PrepareStepView::RequireDir(self.path()),
                PrepareStepView::CreateFile(path_join(self.path(), MEMORY_FILE@)),
                PrepareStepView::RequireExists(path_join(self.path(), MEMORY_FILE@)),
            ]);
        }
        r
    }

    /// The steps of giving the template up; none where nothing is at its path.
    pub fn close(&self, path_exists: bool) -> (r: Vec<CloseStep>)
        ensures
            r@ == (if path_exists {
                seq![CloseStep::UnmountDetached, CloseStep::RemoveDir]
            } else {
                Seq::<CloseStep>::empty()
            }),
    {
        if !path_exists {
            return Vec::new();
        }
        vec![CloseStep::UnmountDetached, CloseStep::RemoveDir]
    }
}

impl<A: Clone> Template<A> {
    /// The configuration of the virtual machine that becomes the template, from a copy of the
    /// factory's. It fails where the hypervisor in use is not configured.
    pub fn create_to_template(
        &self,
        kind: HypervisorKind,
    ) -> (r: Result<TomlConfig<A>, FromTemplateError>)
        ensures
            match r {
                Ok(c) => self.configured() && templated(
                    c,
                    self.vm_config().config,
                    kind,
                    TemplateRole::ToBe,
                    self.path(),
                ),
                Err(e) => !self.configured() && e == FromTemplateError::HypervisorNotFound(
                    self.vm_config().config.hypervisor_name,
                ),
            },
    {
        match with_template(
            &self.config.config,
            kind,
            TemplateRole::ToBe,
            self.template_path.as_str(),
        ) {
            Ok(c) => Ok(c),
            Err(name) => Err(FromTemplateError::HypervisorNotFound(name)),
        }
    }

    /// The configuration of a virtual machine from the template, from a copy of the factory's. It
    /// fails for a hypervisor that cannot do it or that is not configured.
    pub fn create_from_template(&self) -> (r: Result<TomlConfig<A>, FromTemplateError>)
        ensures
            self.made_from_template(r),
    {
        match find_hypervisor(self.config.config.hypervisor_name.as_str(), &self.names) {
            None => Err(FromTemplateError::NotSupported(self.config.hypervisor_name())),
            Some(kind) => match with_template(
                &self.config.config,
                kind,
                TemplateRole::From,
                self.template_path.as_str(),
            ) {
                Ok(c) => Ok(c),
                Err(name) => Err(FromTemplateError::HypervisorNotFound(name)),
            },
        }
    }

    /// Whether `r` is what the factory makes a virtual machine from the template with, or why it
    /// makes none.
    pub open spec fn made_from_template(
        &self,
        r: Result<TomlConfig<A>, FromTemplateError>,
    ) -> bool {
        match self.kind() {
            None => r == Err::<TomlConfig<A>, FromTemplateError>(
                FromTemplateError::NotSupported(self.vm_config().config.hypervisor_name),
            ),
            Some(kind) => match r {
                Ok(c) => self.configured() && templated(
                    c,
                    self.vm_config().config,
                    kind,
                    TemplateRole::From,
                    self.path(),
                ),
                Err(e) => !self.configured() && e == FromTemplateError::HypervisorNotFound(
                    self.vm_config().config.hypervisor_name,
                ),
            },
        }
    }
}

impl<A: Clone> FactoryBase<A> for Template<A> {
    fn config(&self) -> (r: &VMConfig<A>)
        ensures
            *r == self.vm_config(),
    {
        &self.config
    }

    /// The template's virtual machines are all alike, whatever they are asked for with.
    fn get_base_vm(&self, _config: TomlConfig<A>) -> (r: Result<TomlConfig<A>, FromTemplateError>)
        ensures
            self.made_from_template(r),
    {
        self.create_from_template()
    }

    fn close_factory(&self, path_exists: bool) -> (r: Vec<CloseStep>)
        ensures
            r@ == (if path_exists {
                seq![CloseStep::UnmountDetached, CloseStep::RemoveDir]
            } else {
                Seq::<CloseStep>::empty()
            }),
    {
        self.close(path_exists)
    }
}

/// Where a template is only looked for, none is ever made and none is handed out.
pub proof fn law_fetch_never_creates(
    hypervisor_name: Seq<char>,
    names: PartNames,
    exists_already: bool,
)
    ensures
        template_plan(hypervisor_name, names, exists_already, true) is Err,
{
}

/// A template that is there is never made again.
pub proof fn law_existing_template_kept(
    hypervisor_name: Seq<char>,
    names: PartNames,
    fetch_only: bool,
)
    ensures
        template_plan(hypervisor_name, names, true, fetch_only) matches Ok(plan) ==> plan
            == TemplatePlan::Ready,
{
}

/// A virtual machine is saved only in a place that was prepared, and the template is there only
/// once it was saved. The first stage that fails ends the making.
pub proof fn law_prepared_before_saved(done: Option<CreateStage>, worked: bool)
    ensures
        after_stage(done, worked) == Ok::<Option<CreateStage>, CreateStage>(
            Some(CreateStage::SaveVm),
        ) <==> done == Some(CreateStage::Prepare) && worked,
        after_stage(done, worked) == Ok::<Option<CreateStage>, CreateStage>(None) <==> done == Some(
            CreateStage::SaveVm,
        ) && worked,
        after_stage(done, worked) is Err <==> done is Some && !worked,
{
}

/// A virtual machine either becomes the template or is made from it, never both, and the two agree
/// on where the template is.
pub proof fn law_template_sides_agree(
    to_be: HypervisorConfig,
    from: HypervisorConfig,
    h: HypervisorConfig,
    kind: HypervisorKind,
    path: Seq<char>,
)
    requires
        template_config(to_be, h, kind, TemplateRole::ToBe, path),
        template_config(from, h, kind, TemplateRole::From, path),
    ensures
        to_be.vm_template.boot_to_be_template && !to_be.vm_template.boot_from_template,
        from.vm_template.boot_from_template && !from.vm_template.boot_to_be_template,
        to_be.factory.template_path@ == from.factory.template_path@,
        kind == HypervisorKind::Qemu ==> to_be.vm_template.memory_path@
            == from.vm_template.memory_path@ && to_be.vm_template.device_state_path@
            == from.vm_template.device_state_path@,
{
}

/// The template's virtual machine is saved only while it is paused, and nothing follows but giving
/// it up.
pub proof fn law_paused_before_saved(kind: HypervisorKind, i: int)
    requires
        0 <= i < save_steps(kind).len(),
        save_steps(kind)[i] == SaveStep::Save,
    ensures
        i > 0,
        save_steps(kind)[i - 1] == SaveStep::Pause,
        forall|k: int|
            i < k < save_steps(kind).len() ==> #[trigger] save_steps(kind)[k] == SaveStep::Stop
                || save_steps(kind)[k] == SaveStep::Cleanup,
{
}

/// Steps that work follow each other in order, and nothing follows the last.
pub proof fn law_save_steps_in_order(kind: HypervisorKind, i: int)
    requires
        0 <= i < save_steps(kind).len(),
    ensures
        after_save_step(kind, save_steps(kind)[i], true) == Ok::<Option<SaveStep>, SaveStep>(
            if i + 1 < save_steps(kind).len() {
                Some(save_steps(kind)[i + 1])
            } else {
                None
            },
        ),
{
}

/// The first step that fails ends the saving. With Cloud Hypervisor the sandbox's resources are
/// given back after a failure and after the last step alike, and never before.
pub proof fn law_resources_given_back(step: SaveStep, worked: bool)
    ensures
        ({
            let next = after_save_step(HypervisorKind::CloudHypervisor, step, worked);
            &&& !worked ==> next == Err::<Option<SaveStep>, SaveStep>(step)
            &&& resources_given_back(HypervisorKind::CloudHypervisor, next) <==> !worked
                || following_save_step(HypervisorKind::CloudHypervisor, step) is None
        }),
{
}

/// What Cloud Hypervisor restores is what it saved: both sides name the same directory, that of the
/// template, and the files that are looked for there are those that the restore reads.
pub proof fn law_restore_finds_what_was_saved(
    to_be: HypervisorConfig,
    from: HypervisorConfig,
    h: HypervisorConfig,
    path: Seq<char>,
)
    requires
        template_config(to_be, h, HypervisorKind::CloudHypervisor, TemplateRole::ToBe, path),
        template_config(from, h, HypervisorKind::CloudHypervisor, TemplateRole::From, path),
    ensures
        ({
            let url = from.factory.template_path@;
            let files = template_files(HypervisorKind::CloudHypervisor, path);
            &&& to_be.factory.template_path@ == url
            &&& directory_of(url, FileKind::Directory) == Ok::<Seq<char>, PlaceError>(path)
            &&& file_in(url, FileKind::Directory, SNAPSHOT_STATE_FILE@) == Ok::<
                Seq<char>,
                PlaceError,
            >(files[1])
            &&& file_in(url, FileKind::Directory, SNAPSHOT_CONFIG_FILE@) == Ok::<
                Seq<char>,
                PlaceError,
            >(files[2])
        }),
{
    law_file_url_round_trip(path);
}

/// A virtual machine that becomes the template boots from the kernel, and one that is made from the
/// template boots from it, unless it has huge pages.
pub proof fn law_role_decides_boot(
    ch: CloudHypervisorInner,
    h: HypervisorConfig,
    role: TemplateRole,
    path: Seq<char>,
)
    requires
        template_config(ch.config, h, HypervisorKind::CloudHypervisor, role, path),
    ensures
        boot_kind_of(ch) == BootKind::FromTemplate <==> role == TemplateRole::From
            && !h.memory_info.enable_hugepages,
{
}

/// Fetching never makes a template: it tells whether there is one. Without it, one that is there is
/// used, and only otherwise one is made. A hypervisor that is not known by name is refused, whatever
/// is there.
pub proof fn law_plan_follows_files<A>(
    t: Template<A>,
    files_exist: bool,
    fetch_only: bool,
    r: Result<TemplatePlan, TemplateError>,
)
    requires
        call_ensures(Template::<A>::plan, (&t, files_exist, fetch_only), r),
    ensures
        ({
            let name = t.vm_config().config.hypervisor_name@;
            let qemu = name == t.part_names().qemu@;
            let ch = name == t.part_names().cloud_hypervisor@;
            &&& !qemu && !ch ==> (r matches Err(e) && (e matches TemplateError::NotSupported(n)
                && n@ == name))
            &&& qemu || ch ==> {
                &&& files_exist && fetch_only ==> (r matches Err(e) && e is FileExists)
                &&& !files_exist && fetch_only ==> (r matches Err(e) && e is FileNotExists)
                &&& files_exist && !fetch_only ==> r == Ok::<TemplatePlan, TemplateError>(
                    TemplatePlan::Ready,
                )
                &&& !files_exist && !fetch_only ==> r == Ok::<TemplatePlan, TemplateError>(
                    TemplatePlan::Create(
                        if qemu {
                            HypervisorKind::Qemu
                        } else {
                            HypervisorKind::CloudHypervisor
                        },
                    ),
                )
            }
        }),
{
}

/// A template is there if and only if all its files are: one that is missing is enough for it not to
/// be there.
pub proof fn law_all_files_make_template(files_found: Vec<bool>, r: bool, i: int)
    requires
        call_ensures(check_template_vm, (&files_found,), r),
        0 <= i < files_found@.len(),
    ensures
        r ==> files_found@[i],
        !r ==> exists|k: int| 0 <= k < files_found@.len() && !(#[trigger] files_found@[k]),
{
    let args = (&files_found,);
    assert(call_ensures(check_template_vm, args, r));
    if r {
        assert(args.0@[i]);
    }
}

/// The files of a template lie in its directory: the memory, the state and the configuration for
/// one hypervisor, the memory and the state for the other.
pub proof fn law_files_lie_in_template<A>(t: Template<A>, kind: HypervisorKind, r: Vec<String>)
    requires
        call_ensures(Template::<A>::files, (&t, kind), r),
    ensures
        kind == HypervisorKind::CloudHypervisor ==> {
            &&& r@.len() == 3
            &&& r@[0]@ == path_join(t.path(), "memory-ranges"@)
            &&& r@[1]@ == path_join(t.path(), "state.json"@)
            &&& r@[2]@ == path_join(t.path(), "config.json"@)
        },
        kind == HypervisorKind::Qemu ==> {
            &&& r@.len() == 2
            &&& r@[0]@ == path_join(t.path(), "memory"@)
            &&& r@[1]@ == path_join(t.path(), "state"@)
        },
{
    assert(texts(r@).len() == r@.len());
    assert(texts(r@)[0] == r@[0]@);
    assert(texts(r@)[1] == r@[1]@);
    if kind == HypervisorKind::CloudHypervisor {
        assert(texts(r@)[2] == r@[2]@);
    }
}

/// Nothing is prepared where the template's directory is mounted. Otherwise it is created, made
/// private and mounted as a `tmpfs`, with room for the template's memory and 8 MiB more.
pub proof fn law_private_tmpfs_for_template<A>(
    t: Template<A>,
    mounts: &str,
    template_size: u32,
    r: Vec<PrepareStep>,
)
    requires
        template_size + 8 <= u32::MAX,
        call_ensures(Template::<A>::prepare_clh_template_files, (&t, mounts, template_size), r),
    ensures
        mounted_at(mounts@, t.path()) ==> r@.len() == 0,
        !mounted_at(mounts@, t.path()) ==> {
            &&& r@.len() == 3
            &&& r@[0] matches PrepareStep::CreateDir(p) && p@ == t.path()
            &&& r@[1] matches PrepareStep::SetPrivate(p) && p@ == t.path()
            &&& r@[2] matches PrepareStep::MountTmpfs(p, o) && p@ == t.path() && o@ == "size="@
                + decimal((template_size + 8) as nat) + "M"@
        },
{
    assert(prepare_view(r@).len() == r@.len());
    if !mounted_at(mounts@, t.path()) {
        assert(prepare_view(r@)[0] == r@[0]@);
        assert(prepare_view(r@)[1] == r@[1]@);
        assert(prepare_view(r@)[2] == r@[2]@);
    }
}

/// The other hypervisor's directory is always created, must then exist, and is mounted as a `tmpfs`
/// with room for the configured memory and 8 MiB more; the file for the memory is created in it.
pub proof fn law_memory_file_for_template<A>(t: Template<A>, r: Vec<PrepareStep>)
    requires
        t.configured(),
        t.vm_config().config.hypervisor@[t.hypervisor()].memory_info.default_memory + 8
            <= u32::MAX,
        call_ensures(Template::<A>::prepare_qemu_template_files, (&t,), r),
    ensures
        ({
            let config = t.vm_config().config;
            let memory = config.hypervisor@[config.hypervisor_name@].memory_info.default_memory;
            let file = path_join(t.path(), "memory"@);
            &&& r@.len() == 6
            &&& r@[0] matches PrepareStep::CreateDir(p) && p@ == t.path()
            &&& r@[1] matches PrepareStep::RequireExists(p) && p@ == t.path()
            &&& r@[2] matches PrepareStep::MountTmpfs(p, o) && p@ == t.path() && o@ == "size="@
                + decimal((memory + 8) as nat) + "M"@
            &&& r@[3] matches PrepareStep::RequireDir(p) && p@ == t.path()
            &&& r@[4] matches PrepareStep::CreateFile(p) && p@ == file
            &&& r@[5] matches PrepareStep::RequireExists(p) && p@ == file
        }),
{
    assert(prepare_view(r@).len() == r@.len());
    assert(prepare_view(r@)[0] == r@[0]@);
    assert(prepare_view(r@)[1] == r@[1]@);
    assert(prepare_view(r@)[2] == r@[2]@);
    assert(prepare_view(r@)[3] == r@[3]@);
    assert(prepare_view(r@)[4] == r@[4]@);
    assert(prepare_view(r@)[5] == r@[5]@);
}

/// A path is mounted if and only if some line of the mount table has it as its second word.
pub proof fn law_second_word_is_mount_point(mounts: &str, path: &str, r: bool)
    requires
        call_ensures(is_mounted, (mounts, path), r),
    ensures
        r <==> exists|i: int|
            {
                let lines = split(mounts@, '\n');
                &&& 0 <= i < lines.len()
                &&& words(#[trigger] split(mounts@, '\n')[i]).len() >= 2
                &&& words(split(mounts@, '\n')[i])[1] == path@
            },
{
    let lines = split(mounts@, '\n');
    if r {
        let i = choose|i: int|
            0 <= i < split(mounts@, '\n').len() && mount_point(#[trigger] split(mounts@, '\n')[i])
                == Some(path@);
        assert(words(split(mounts@, '\n')[i]).len() >= 2);
    }
}

/// A template is prepared, then saved, and then it is there. A stage that fails ends the making
/// with the failure of that stage, and one hypervisor's files are then removed.
pub proof fn law_stages_in_order(
    done: Option<CreateStage>,
    worked: bool,
    r: Result<Option<CreateStage>, CreateStage>,
    kind: HypervisorKind,
    stage: CreateStage,
    failure: StageFailure,
)
    requires
        call_ensures(next_stage, (done, worked), r),
        call_ensures(stage_failed, (kind, stage), failure),
    ensures
        done is None ==> r == Ok::<Option<CreateStage>, CreateStage>(Some(CreateStage::Prepare)),
        done == Some(CreateStage::Prepare) && worked ==> r == Ok::<
            Option<CreateStage>,
            CreateStage,
        >(Some(CreateStage::SaveVm)),
        done == Some(CreateStage::SaveVm) && worked ==> r == Ok::<
            Option<CreateStage>,
            CreateStage,
        >(None),
        !worked ==> (done matches Some(d) ==> r == Err::<Option<CreateStage>, CreateStage>(d)),
        failure.close <==> kind == HypervisorKind::CloudHypervisor,
        stage == CreateStage::Prepare <==> failure.error is PrepareFailed,
        stage == CreateStage::SaveVm <==> failure.error is CreateFailed,
{
}

/// The directory is removed behind a failure if and only if one hypervisor's first step was done.
pub proof fn law_made_dir_is_removed(kind: HypervisorKind, steps_done: usize, r: bool)
    requires
        call_ensures(remove_dir_on_failure, (kind, steps_done), r),
    ensures
        r <==> kind == HypervisorKind::CloudHypervisor && steps_done >= 1,
{
}

/// Either hypervisor's machine is given time, paused and saved, one behind the other. One
/// hypervisor's is first prepared, started and set up, and then stopped and cleaned up; the other's
/// is only let go by the agent before.
pub proof fn law_saving_in_order(kind: HypervisorKind, r: Vec<SaveStep>)
    requires
        call_ensures(template_vm_steps, (kind,), r),
    ensures
        kind == HypervisorKind::CloudHypervisor ==> {
            &&& r@.len() == 11
            &&& r@[0] == SaveStep::PrepareVm && r@[1] == SaveStep::PrepareSandbox
            &&& r@[2] == SaveStep::PrepareBeforeStart && r@[3] == SaveStep::StartVm
            &&& r@[4] == SaveStep::ConnectAgent && r@[5] == SaveStep::SetupAfterStart
            &&& r@[6] == SaveStep::Wait && r@[7] == SaveStep::Pause && r@[8] == SaveStep::Save
            &&& r@[9] == SaveStep::Stop && r@[10] == SaveStep::Cleanup
        },
        kind == HypervisorKind::Qemu ==> {
            &&& r@.len() == 4
            &&& r@[0] == SaveStep::DisconnectAgent && r@[1] == SaveStep::Wait
            &&& r@[2] == SaveStep::Pause && r@[3] == SaveStep::Save
        },
{
}

/// Going from step to step takes every step of the list, in its order, and ends behind the last. The
/// step that fails is the failure. One hypervisor's resources are given back once no step follows.
pub proof fn law_every_save_step_is_taken(
    kind: HypervisorKind,
    all: Vec<SaveStep>,
    i: int,
    worked: bool,
    r: Result<Option<SaveStep>, SaveStep>,
    back: bool,
)
    requires
        call_ensures(template_vm_steps, (kind,), all),
        0 <= i < all@.len(),
        call_ensures(next_save_step, (kind, all@[i], worked), r),
        call_ensures(gives_back_resources, (kind, r), back),
    ensures
        !worked ==> r == Err::<Option<SaveStep>, SaveStep>(all@[i]),
        worked && i + 1 < all@.len() ==> r == Ok::<Option<SaveStep>, SaveStep>(Some(all@[i + 1])),
        worked && i + 1 == all@.len() ==> r == Ok::<Option<SaveStep>, SaveStep>(None),
        back <==> kind == HypervisorKind::CloudHypervisor && (!worked || i + 1 == all@.len()),
{
}

/// Saving works if and only if the saving and the clean-up behind it both do; the clean-up's error
/// comes first.
pub proof fn law_cleanup_error_first<E>(
    saved: Result<(), E>,
    cleaned_up: Result<(), E>,
    r: Result<(), E>,
)
    requires
        call_ensures(save_outcome::<E>, (saved, cleaned_up), r),
    ensures
        r is Ok <==> saved is Ok && cleaned_up is Ok,
        cleaned_up matches Err(e) ==> r == Err::<(), E>(e),
        cleaned_up is Ok ==> (saved matches Err(e) ==> r == Err::<(), E>(e)),
{
}

/// The configuration for a template differs from the given one only in the hypervisor's part: in
/// the two flags that tell the roles apart, of which exactly one is set, and in where the template
/// lies. Every other hypervisor keeps its configuration.
pub proof fn law_template_changes_only_its_place<A: Clone>(
    config: TomlConfig<A>,
    kind: HypervisorKind,
    role: TemplateRole,
    path: &str,
    r: Result<TomlConfig<A>, String>,
)
    requires
        call_ensures(with_template::<A>, (&config, kind, role, path), r),
    ensures
        r is Ok <==> config.hypervisor@.dom().contains(config.hypervisor_name@),
        r matches Err(name) ==> name@ == config.hypervisor_name@,
        r matches Ok(c) ==> {
            let name = config.hypervisor_name@;
            let was = config.hypervisor@[name];
            let now = c.hypervisor@[name];
            &&& c.hypervisor_name@ == name
            &&& c.agent_name@ == config.agent_name@
            &&& c.factory == config.factory
            &&& c.hypervisor@.dom() == config.hypervisor@.dom()
            &&& forall|other: Seq<char>|
                other != name && #[trigger] config.hypervisor@.dom().contains(other)
                    ==> c.hypervisor@[other].same_as(config.hypervisor@[other])
            &&& has_role(now, kind, role, path@)
            &&& keeps_the_rest(now, was, kind)
        },
{
}

/// Whether a configuration is for a template at `path` in this role.
pub open spec fn has_role(
    now: HypervisorConfig,
    kind: HypervisorKind,
    role: TemplateRole,
    path: Seq<char>,
) -> bool {
    &&& now.vm_template.boot_to_be_template <==> role == TemplateRole::ToBe
    &&& now.vm_template.boot_from_template <==> role == TemplateRole::From
    &&& kind == HypervisorKind::CloudHypervisor ==> now.factory.template_path@ == "file://"@ + path
    &&& kind == HypervisorKind::Qemu ==> now.vm_template.memory_path@ == path_join(path, "memory"@)
        && now.vm_template.device_state_path@ == path_join(path, "state"@)
}

/// Whether two configurations are the same but for the template.
pub open spec fn keeps_the_rest(
    now: HypervisorConfig,
    was: HypervisorConfig,
    kind: HypervisorKind,
) -> bool {
    &&& kind == HypervisorKind::CloudHypervisor ==> now.vm_template.memory_path
        == was.vm_template.memory_path && now.vm_template.device_state_path
        == was.vm_template.device_state_path
    &&& kind == HypervisorKind::Qemu ==> now.factory.template_path == was.factory.template_path
    &&& now.factory.factory_type == was.factory.factory_type
    &&& now.disable_selinux == was.disable_selinux && now.enable_debug == was.enable_debug
    &&& now.machine_type == was.machine_type && now.hypervisor_socket == was.hypervisor_socket
    &&& now.default_bridges == was.default_bridges
    &&& texts(now.virtio_fs_extra_args@) == texts(was.virtio_fs_extra_args@)
    &&& now.boot_info == was.boot_info && now.cpu_info == was.cpu_info
    &&& now.memory_info == was.memory_info && now.security_info == was.security_info
    &&& now.blockdev_info == was.blockdev_info && now.network_info == was.network_info
}

/// The template itself and what is made from it have the same configuration but for their roles:
/// the one is to become the template, the other starts from it, at the template's own path. An
/// unknown hypervisor makes neither.
pub proof fn law_template_and_its_machines<A: Clone>(
    t: Template<A>,
    kind: HypervisorKind,
    to_be: Result<TomlConfig<A>, FromTemplateError>,
    from: Result<TomlConfig<A>, FromTemplateError>,
    config: TomlConfig<A>,
    base: Result<TomlConfig<A>, FromTemplateError>,
)
    requires
        call_ensures(Template::<A>::create_to_template, (&t, kind), to_be),
        call_ensures(Template::<A>::create_from_template, (&t,), from),
        call_ensures(<Template<A> as FactoryBase<A>>::get_base_vm, (&t, config), base),
    ensures
        ({
            let own = t.vm_config().config;
            let name = own.hypervisor_name@;
            let qemu = name == t.part_names().qemu@;
            let ch = name == t.part_names().cloud_hypervisor@;
            let kind_by_name = if qemu {
                HypervisorKind::Qemu
            } else {
                HypervisorKind::CloudHypervisor
            };
            let known = own.hypervisor@.dom().contains(name);
            &&& to_be is Ok <==> known
            &&& to_be matches Ok(c) ==> has_role(
                c.hypervisor@[name],
                kind,
                TemplateRole::ToBe,
                t.path(),
            ) && keeps_the_rest(c.hypervisor@[name], own.hypervisor@[name], kind)
            &&& from is Ok <==> known && (qemu || ch)
            &&& from matches Ok(c) ==> has_role(
                c.hypervisor@[name],
                kind_by_name,
                TemplateRole::From,
                t.path(),
            ) && keeps_the_rest(c.hypervisor@[name], own.hypervisor@[name], kind_by_name)
            &&& from matches Err(e) ==> (if qemu || ch {
                e matches FromTemplateError::HypervisorNotFound(n) && n@ == name
            } else {
                e matches FromTemplateError::NotSupported(n) && n@ == name
            })
            &&& base is Ok <==> from is Ok
            &&& base matches Ok(c) ==> has_role(
                c.hypervisor@[name],
                kind_by_name,
                TemplateRole::From,
                t.path(),
            )
        }),
{
}

/// A template is closed by unmounting its directory and then removing it, and only where it exists;
/// so is its factory.
pub proof fn law_closed_where_it_exists<A: Clone>(
    t: Template<A>,
    path_exists: bool,
    r: Vec<CloseStep>,
    f: Vec<CloseStep>,
)
    requires
        call_ensures(Template::<A>::close, (&t, path_exists), r),
        call_ensures(<Template<A> as FactoryBase<A>>::close_factory, (&t, path_exists), f),
    ensures
        !path_exists ==> r@.len() == 0,
        path_exists ==> r@.len() == 2 && r@[0] == CloseStep::UnmountDetached && r@[1]
            == CloseStep::RemoveDir,
        f@ == r@,
{
}

/// A template has the path, the configuration and the names that it was made with.
pub proof fn law_template_keeps_its_own<A>(
    template_path: String,
    config: VMConfig<A>,
    names: PartNames,
    t: Template<A>,
    path: &str,
)
    requires
        call_ensures(Template::<A>::new, (template_path, config, names), t),
        call_ensures(Template::<A>::template_path, (&t,), path),
    ensures
        path@ == template_path@,
        t.vm_config() == config,
        t.part_names() == names,
{
}

/// The sandbox of a template is nobody's: it has no name, no network names, no process and no
/// shared memory, and it is still being created.
pub proof fn law_template_sandbox_is_empty(r: SandboxConfig)
    requires
        call_ensures(default_sandbox_config, (), r),
    ensures
        r.sandbox_id@ =~= Seq::empty() && r.hostname@ =~= Seq::empty() && r.state_id@
            =~= Seq::empty() && r.bundle@ =~= Seq::empty(),
        r.dns@.len() == 0,
        r.status == ContainerState::Creating,
        r.pid == 0,
        r.shm_size == 0,
{
}

/// Every [`TemplateError`] is told in its own words.
pub proof fn law_template_error_in_words(e: TemplateError, r: String)
    requires
        call_ensures(TemplateError::message, (&e,), r),
    ensures
        e matches TemplateError::InvalidConfig(what) ==> r@ == "invalid config: "@ + what@,
        e is FileExists ==> r@ == "template file exists."@,
        e is FileNotExists ==> r@ == "template file not exists."@,
        e matches TemplateError::NotSupported(name) ==> r@ == "template is not supported by hypervisor type: "@ + name@,
        e is CreateFailed ==> r@ == "template create failed"@,
        e is PrepareFailed ==> r@ == "template prepare failed"@,
{
}

} // verus!
