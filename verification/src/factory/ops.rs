//! The commands that make, remove and show the template.

use vstd::prelude::*;
use vstd::string::*;

use crate::config::{HypervisorConfig, PartNames, TomlConfig, VmTemplateInfo};
use crate::factory::template::{
    template_plan, PlanRefusal, TemplatePlan, MEMORY_FILE, STATE_FILE,
};
use crate::factory::vm::{find_hypervisor, hypervisor_kind, HypervisorKind};
use crate::network::xlet::present;
use crate::path::{join_path, path_join};
use crate::text::{concat2, str_eq};

verus! {

broadcast use vstd::string::group_string_axioms;

/// A command.
#[derive(Clone, Copy, Debug, PartialEq, Eq, Structural)]
pub enum FactorySubCommand {
    /// Make the template.
    Init,
    /// Remove the template.
    Destroy,
    /// Show whether there is a template.
    Status,
}

impl FactorySubCommand {
    /// What is said when the command fails.
    pub open spec fn text(&self) -> Seq<char> {
        match self {
            FactorySubCommand::Init => "failed to initialize factory"@,
            FactorySubCommand::Destroy => "failed to destroy factory"@,
            FactorySubCommand::Status => "failed to query factory status"@,
        }
    }

    /// What is said when the command fails.
    pub fn failure(&self) -> (r: &'static str)
        ensures
            r@ == self.text(),
    {
        match self {
            FactorySubCommand::Init => "failed to initialize factory",
            FactorySubCommand::Destroy => "failed to destroy factory",
            FactorySubCommand::Status => "failed to query factory status",
        }
    }
}

/// Why a configuration cannot be used for a template.
#[derive(Debug)]
pub enum LoadError {
    /// Another kind of factory is configured.
    NotTemplate(String),
    /// The hypervisor in use is not configured.
    NoHypervisor(String),
    /// The hypervisor in use cannot do it.
    UnsupportedHypervisor(String),
}

impl LoadError {
    /// The error in words.
    pub open spec fn text(&self) -> Seq<char> {
        match self {
            LoadError::NotTemplate(t) => "template not enabled, factory_type is "@ + t@,
            LoadError::NoHypervisor(name) => "failed to get hypervisor for "@ + name@,
            LoadError::UnsupportedHypervisor(name) => "unsupported hypervisor: "@ + name@,
        }
    }

    /// The error in words.
    pub fn message(&self) -> (r: String)
        ensures
            r@ == self.text(),
    {
        match self {
            LoadError::NotTemplate(t) => concat2(
                "template not enabled, factory_type is ",
                t.as_str(),
            ),
            LoadError::NoHypervisor(name) => concat2(
                "failed to get hypervisor for ",
                name.as_str(),
            ),
            LoadError::UnsupportedHypervisor(name) => concat2(
                "unsupported hypervisor: ",
                name.as_str(),
            ),
        }
    }
}

/// The kernel parameters that the agent asks for, from each one's text where it has one; nothing
/// where they cannot be told.
pub fn update_agent_kernel_params(rendered: Option<Vec<Option<String>>>) -> (r: Option<Vec<String>>)
    ensures
        match rendered {
            Some(list) => r matches Some(params) && params@ == present(list@),
            None => r is None,
        },
{
    match rendered {
        None => None,
        Some(list) => {
            let ghost given = list@;
            let mut params: Vec<String> = Vec::new();
            let mut i: usize = 0;
            proof {
                assert(params@ =~= present(given.take(0)));
            }
            while i < list.len()
                invariant
                    i <= list@.len(),
                    list@ == given,
                    params@ == present(given.take(i as int)),
                decreases list@.len() - i,
            {
                proof {
                    assert(given.take(i + 1).drop_last() =~= given.take(i as int));
                }
                if let Some(text) = &list[i] {
                    params.push(text.clone());
                }
                i = i + 1;
            }
            proof {
                assert(given.take(i as int) =~= given);
            }
            Some(params)
        },
    }
}

/// Whether `r` is the configuration `h` of a hypervisor for the template's virtual machine, as the
/// commands set it up. QEMU is also told the files.
pub open spec fn command_config(
    r: HypervisorConfig,
    h: HypervisorConfig,
    kind: HypervisorKind,
    path: Seq<char>,
) -> bool {
    &&& kind == HypervisorKind::Qemu ==> r.vm_template.memory_path@ == path_join(path, MEMORY_FILE@)
        && r.vm_template.device_state_path@ == path_join(path, STATE_FILE@)
    &&& kind == HypervisorKind::CloudHypervisor ==> r.vm_template.memory_path
        == h.vm_template.memory_path && r.vm_template.device_state_path
        == h.vm_template.device_state_path
    &&& r == (HypervisorConfig {
        vm_template: VmTemplateInfo {
            boot_to_be_template: true,
            boot_from_template: false,
            memory_path: r.vm_template.memory_path,
            device_state_path: r.vm_template.device_state_path,
        },
        ..h
    })
}

/// Whether `r` is `config` as the commands set it up.
pub open spec fn command_setup<A>(
    r: TomlConfig<A>,
    config: TomlConfig<A>,
    kind: HypervisorKind,
) -> bool {
    let name = config.hypervisor_name@;
    &&& r.hypervisor@.dom().contains(name)
    &&& command_config(
        r.hypervisor@[name],
        config.hypervisor@[name],
        kind,
        config.factory.template_path@,
    )
    &&& r.hypervisor@ == config.hypervisor@.insert(name, r.hypervisor@[name])
    &&& r == (TomlConfig { hypervisor: r.hypervisor, ..config })
}

/// Sets a configuration up for the commands. It fails unless a template is configured, for a
/// hypervisor that can do it and that is configured.
pub fn load_config<A>(
    config: TomlConfig<A>,
    names: &PartNames,
) -> (r: Result<TomlConfig<A>, LoadError>)
    ensures
        match r {
            Ok(c) => {
                &&& config.factory.factory_type@ == "template"@
                &&& hypervisor_kind(config.hypervisor_name@, *names) is Some
                &&& config.hypervisor@.dom().contains(config.hypervisor_name@)
                &&& command_setup(c, config, hypervisor_kind(config.hypervisor_name@, *names)->0)
            },
            Err(e) => if config.factory.factory_type@ != "template"@ {
                e == LoadError::NotTemplate(config.factory.factory_type)
            } else if hypervisor_kind(config.hypervisor_name@, *names) is None {
                e == LoadError::UnsupportedHypervisor(config.hypervisor_name)
            } else {
                !config.hypervisor@.dom().contains(config.hypervisor_name@) && e
                    == LoadError::NoHypervisor(config.hypervisor_name)
            },
        },
{
    let mut config = config;
    let ghost given = config;
    if !str_eq(config.factory.factory_type.as_str(), "template") {
        return Err(LoadError::NotTemplate(config.factory.factory_type));
    }
    let kind = match find_hypervisor(config.hypervisor_name.as_str(), names) {
        Some(kind) => kind,
        None => {
            return Err(LoadError::UnsupportedHypervisor(config.hypervisor_name));
        },
    };
    if !config.hypervisor.contains(config.hypervisor_name.as_str()) {
        return Err(LoadError::NoHypervisor(config.hypervisor_name));
    }
    let name = config.hypervisor_name.clone();
    let memory = join_path(config.factory.template_path.as_str(), MEMORY_FILE);
    let state = join_path(config.factory.template_path.as_str(), STATE_FILE);
    let h = config.hypervisor.get_mut(name.as_str());
    h.vm_template.boot_from_template = false;
    h.vm_template.boot_to_be_template = true;
    match kind {
        HypervisorKind::Qemu => {
            h.vm_template.memory_path = memory;
            h.vm_template.device_state_path = state;
        },
        HypervisorKind::CloudHypervisor => {},
    }
    proof {
        let n = given.hypervisor_name@;
        assert(config.hypervisor@ =~= given.hypervisor@.insert(n, config.hypervisor@[n]));
    }
    Ok(config)
}

/// What looking for the template came to.
#[derive(Clone, Copy, Debug, PartialEq, Eq, Structural)]
pub enum FetchOutcome {
    /// A factory was handed out.
    Found,
    /// The template is there.
    FileExists,
    /// The template is not there.
    FileNotExists,
    /// Something else is wrong.
    Failed,
}

/// What a command does after it has looked for the template.
#[derive(Clone, Copy, Debug, PartialEq, Eq, Structural)]
pub enum AfterFetch {
    /// Nothing is left to do.
    Done,
    /// It gets the factory, making the template if need be.
    GetFactory,
}

/// What making the template does after it was looked for: nothing where it is there.
pub open spec fn after_init(fetched: FetchOutcome) -> AfterFetch {
    if fetched == FetchOutcome::FileExists {
        AfterFetch::Done
    } else {
        AfterFetch::GetFactory
    }
}

/// What removing the template does after it was looked for: nothing where it is not there.
pub open spec fn after_destroy(fetched: FetchOutcome) -> AfterFetch {
    if fetched == FetchOutcome::FileNotExists {
        AfterFetch::Done
    } else {
        AfterFetch::GetFactory
    }
}

/// What making the template does after it was looked for: nothing where it is there.
pub fn init(fetched: FetchOutcome) -> (r: AfterFetch)
    ensures
        r == after_init(fetched),
{
    match fetched {
        FetchOutcome::FileExists => AfterFetch::Done,
        _ => AfterFetch::GetFactory,
    }
}

/// What removing the template does after it was looked for: nothing where it is not there, and
/// otherwise the factory is got and given up.
pub fn destroy(fetched: FetchOutcome) -> (r: AfterFetch)
    ensures
        r == after_destroy(fetched),
{
    match fetched {
        FetchOutcome::FileNotExists => AfterFetch::Done,
        _ => AfterFetch::GetFactory,
    }
}

/// Whether there is a template, after it was looked for; nothing where that cannot be told.
pub open spec fn template_status(fetched: FetchOutcome) -> Option<bool> {
    match fetched {
        FetchOutcome::Found => Some(true),
        FetchOutcome::FileExists => Some(true),
        FetchOutcome::FileNotExists => Some(false),
        FetchOutcome::Failed => None,
    }
}

/// Whether there is a template, after it was looked for; nothing where that cannot be told.
pub fn status(fetched: FetchOutcome) -> (r: Option<bool>)
    ensures
        r == template_status(fetched),
{
    match fetched {
        FetchOutcome::Found => Some(true),
        FetchOutcome::FileExists => Some(true),
        FetchOutcome::FileNotExists => Some(false),
        FetchOutcome::Failed => None,
    }
}

/// What looking for the template comes to, by how it would come about.
pub open spec fn fetch_outcome(plan: Result<TemplatePlan, PlanRefusal>) -> FetchOutcome {
    match plan {
        Ok(_) => FetchOutcome::Found,
        Err(PlanRefusal::FileExists) => FetchOutcome::FileExists,
        Err(PlanRefusal::FileNotExists) => FetchOutcome::FileNotExists,
        Err(PlanRefusal::NotSupported) => FetchOutcome::Failed,
    }
}

/// With a hypervisor that can do it, the status tells whether the template's files are there.
pub proof fn law_status_tells_files(
    hypervisor_name: Seq<char>,
    names: PartNames,
    files_exist: bool,
)
    requires
        hypervisor_kind(hypervisor_name, names) is Some,
    ensures
        template_status(fetch_outcome(template_plan(hypervisor_name, names, files_exist, true))) == Some(
            files_exist,
        ),
{
}

/// With a hypervisor that can do it, making a template that is there and removing one that is not
/// there do nothing; otherwise the factory is asked.
pub proof fn law_commands_settle(
    hypervisor_name: Seq<char>,
    names: PartNames,
    files_exist: bool,
)
    requires
        hypervisor_kind(hypervisor_name, names) is Some,
    ensures
        after_init(fetch_outcome(template_plan(hypervisor_name, names, files_exist, true)))
            == (if files_exist {
            AfterFetch::Done
        } else {
            AfterFetch::GetFactory
        }),
        after_destroy(fetch_outcome(template_plan(hypervisor_name, names, files_exist, true)))
            == (if files_exist {
            AfterFetch::GetFactory
        } else {
            AfterFetch::Done
        }),
{
}

/// A configuration is loaded if and only if its factory is a template and its hypervisor is known by
/// name and configured; otherwise the error is the first of these that fails, with the name.
pub proof fn law_only_template_factories_load<A>(
    config: TomlConfig<A>,
    names: PartNames,
    r: Result<TomlConfig<A>, LoadError>,
)
    requires
        call_ensures(load_config::<A>, (config, &names), r),
    ensures
        ({
            let name = config.hypervisor_name@;
            let template = config.factory.factory_type@ == "template"@;
            let supported = name == names.qemu@ || name == names.cloud_hypervisor@;
            let known = config.hypervisor@.dom().contains(name);
            &&& r is Ok <==> template && supported && known
            &&& !template ==> (r matches Err(e) && (e matches LoadError::NotTemplate(t) && t@
                == config.factory.factory_type@))
            &&& template && !supported ==> (r matches Err(e) && (
            e matches LoadError::UnsupportedHypervisor(n) && n@ == name))
            &&& template && supported && !known ==> (r matches Err(e) && (
            e matches LoadError::NoHypervisor(n) && n@ == name))
        }),
{
}

/// A loaded configuration is set up for the machine that is to become the template. Only one
/// hypervisor is told where its files will be, in the factory's directory. All else stays.
pub proof fn law_loaded_for_the_template<A>(
    config: TomlConfig<A>,
    names: PartNames,
    c: TomlConfig<A>,
)
    requires
        call_ensures(load_config::<A>, (config, &names), Ok::<TomlConfig<A>, LoadError>(c)),
    ensures
        ({
            let name = config.hypervisor_name@;
            let was = config.hypervisor@[name];
            let now = c.hypervisor@[name];
            let dir = config.factory.template_path@;
            &&& now.vm_template.boot_to_be_template && !now.vm_template.boot_from_template
            &&& name == names.qemu@ ==> now.vm_template.memory_path@ == path_join(dir, "memory"@)
                && now.vm_template.device_state_path@ == path_join(dir, "state"@)
            &&& name != names.qemu@ ==> now.vm_template.memory_path == was.vm_template.memory_path
                && now.vm_template.device_state_path == was.vm_template.device_state_path
            &&& now == (HypervisorConfig { vm_template: now.vm_template, ..was })
            &&& c.hypervisor@.dom() == config.hypervisor@.dom()
            &&& forall|other: Seq<char>|
                other != name && #[trigger] config.hypervisor@.dom().contains(other)
                    ==> c.hypervisor@[other] == config.hypervisor@[other]
            &&& c.hypervisor_name == config.hypervisor_name && c.agent_name == config.agent_name
            &&& c.agent == config.agent && c.factory == config.factory
        }),
{
    assert(c.hypervisor@.dom() =~= config.hypervisor@.dom());
}

/// Making a template stops where one is there, removing one stops where none is there, and in every
/// other case, also where nothing could be found out, the work goes on.
pub proof fn law_commands_stop_where_done(
    fetched: FetchOutcome,
    made: AfterFetch,
    removed: AfterFetch,
)
    requires
        call_ensures(init, (fetched,), made),
        call_ensures(destroy, (fetched,), removed),
    ensures
        made == AfterFetch::Done <==> fetched == FetchOutcome::FileExists,
        removed == AfterFetch::Done <==> fetched == FetchOutcome::FileNotExists,
{
}

/// The status says whether there is a template, and nothing where that could not be found out.
pub proof fn law_status_is_what_was_found(fetched: FetchOutcome, r: Option<bool>)
    requires
        call_ensures(status, (fetched,), r),
    ensures
        r is None <==> fetched == FetchOutcome::Failed,
        r == Some(false) <==> fetched == FetchOutcome::FileNotExists,
        r == Some(true) <==> fetched == FetchOutcome::Found || fetched == FetchOutcome::FileExists,
{
}

/// The agent's parameters are those that could be written out, in their order, and there are none
/// at all where there is no agent.
pub proof fn law_written_parameters_kept(
    rendered: Option<Vec<Option<String>>>,
    r: Option<Vec<String>>,
)
    requires
        call_ensures(update_agent_kernel_params, (rendered,), r),
    ensures
        r is Some <==> rendered is Some,
        rendered matches Some(list) ==> (r matches Some(params) && params@ == list@.filter(
            |t: Option<String>| t is Some,
        ).map_values(|t: Option<String>| t->0)),
{
    if let Some(list) = rendered {
        crate::network::xlet::law_present_in_order(list@);
    }
}

/// Every [`FactorySubCommand`] is told in its own words.
pub proof fn law_factory_sub_command_in_words(e: FactorySubCommand, r: &'static str)
    requires
        call_ensures(FactorySubCommand::failure, (&e,), r),
    ensures
        e is Init ==> r@ == "failed to initialize factory"@,
        e is Destroy ==> r@ == "failed to destroy factory"@,
        e is Status ==> r@ == "failed to query factory status"@,
{
}

/// Every [`LoadError`] is told in its own words.
pub proof fn law_load_error_in_words(e: LoadError, r: String)
    requires
        call_ensures(LoadError::message, (&e,), r),
    ensures
        e matches LoadError::NotTemplate(t) ==> r@ == "template not enabled, factory_type is "@ + t@,
        e matches LoadError::NoHypervisor(name) ==> r@ == "failed to get hypervisor for "@ + name@,
        e matches LoadError::UnsupportedHypervisor(name) ==> r@ == "unsupported hypervisor: "@ + name@,
{
}

} // verus!
