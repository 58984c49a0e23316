//! What every factory has in common, and the choice of a factory.

use vstd::prelude::*;
use vstd::string::*;

use crate::config::{FactoryConfig, PartNames, TomlConfig};
use crate::factory::template::FromTemplateError;
use crate::factory::vm::VMConfig;
use crate::text::str_eq;

verus! {

broadcast use vstd::string::group_string_axioms;

/// A step of giving a factory up.
#[derive(Clone, Copy, Debug, PartialEq, Eq, Structural)]
pub enum CloseStep {
    /// Unmount the factory's directory, also while it is in use.
    UnmountDetached,
    /// Remove the directory and what is in it.
    RemoveDir,
}

/// A source of virtual machines.
pub trait FactoryBase<A> {
    /// The configuration.
    fn config(&self) -> &VMConfig<A>;

    /// The configuration that a virtual machine is made with, asked for with `config`.
    fn get_base_vm(&self, config: TomlConfig<A>) -> Result<TomlConfig<A>, FromTemplateError>;

    /// The steps of giving the factory up, by whether its directory is there.
    fn close_factory(&self, path_exists: bool) -> Vec<CloseStep>;
}

/// A source of virtual machines that are ready for use.
pub trait Factory<A>: FactoryBase<A> {
    /// The configuration that a virtual machine is made with, asked for with `config`.
    fn get_vm(&self, config: TomlConfig<A>) -> Result<TomlConfig<A>, FromTemplateError>;
}

/// A factory that makes every virtual machine anew.
#[derive(Debug)]
pub struct Direct<A> {
    config: VMConfig<A>,
}

impl<A> Direct<A> {
    /// The configuration.
    pub closed spec fn vm_config(&self) -> VMConfig<A> {
        self.config
    }

    /// A factory with a configuration.
    pub fn new(config: VMConfig<A>) -> (r: Self)
        ensures
            r.vm_config() == config,
    {
        Direct { config }
    }
}

impl<A> FactoryBase<A> for Direct<A> {
    fn config(&self) -> (r: &VMConfig<A>)
        ensures
            *r == self.vm_config(),
    {
        &self.config
    }

    fn get_base_vm(&self, config: TomlConfig<A>) -> (r: Result<TomlConfig<A>, FromTemplateError>)
        ensures
            r == Ok::<TomlConfig<A>, FromTemplateError>(config),
    {
        Ok(config)
    }

    fn close_factory(&self, path_exists: bool) -> (r: Vec<CloseStep>)
        ensures
            r@.len() == 0,
    {
        Vec::new()
    }
}

/// Why there is no factory.
#[derive(Clone, Copy, Debug, PartialEq, Eq, Structural)]
pub enum FactoryError {
    /// A template is asked for, and no place for it is given.
    NoTemplatePath,
    /// A cache is asked for.
    CacheNotSupported,
    /// None of the kinds of factories is asked for.
    NotEnabled,
}

impl FactoryError {
    /// The error in words.
    pub open spec fn text(&self) -> Seq<char> {
        match self {
            FactoryError::NoTemplatePath => "template_path is not set"@,
            FactoryError::CacheNotSupported => "cache factory is not supported yet"@,
            FactoryError::NotEnabled => "vm factory not enabled"@,
        }
    }

    /// The error in words.
    pub fn message(&self) -> (r: &'static str)
        ensures
            r@ == self.text(),
    {
        match self {
            FactoryError::NoTemplatePath => "template_path is not set",
            FactoryError::CacheNotSupported => "cache factory is not supported yet",
            FactoryError::NotEnabled => "vm factory not enabled",
        }
    }
}

/// A choice of factory.
#[derive(Clone, Copy, Debug, PartialEq, Eq, Structural)]
pub enum FactoryChoice {
    /// One with a template at the configured path.
    Template,
    /// One that makes every virtual machine anew.
    Direct,
}

/// The factory that a configuration asks for.
pub open spec fn factory_base(factory: FactoryConfig) -> Result<FactoryChoice, FactoryError> {
    if factory.factory_type@ == "template"@ {
        if factory.template_path@.len() == 0 {
            Err(FactoryError::NoTemplatePath)
        } else {
            Ok(FactoryChoice::Template)
        }
    } else if factory.factory_type@ == "cache"@ {
        Err(FactoryError::CacheNotSupported)
    } else if factory.factory_type@ == "direct"@ {
        Ok(FactoryChoice::Direct)
    } else {
        Err(FactoryError::NotEnabled)
    }
}

/// The factory that a configuration asks for.
pub fn get_factory_base(factory: &FactoryConfig) -> (r: Result<FactoryChoice, FactoryError>)
    ensures
        r == factory_base(*factory),
{
    proof {
        reveal_strlit("template");
        reveal_strlit("cache");
        reveal_strlit("direct");
    }
    if str_eq(factory.factory_type.as_str(), "template") {
        if factory.template_path.as_str().unicode_len() == 0 {
            return Err(FactoryError::NoTemplatePath);
        }
        Ok(FactoryChoice::Template)
    } else if str_eq(factory.factory_type.as_str(), "cache") {
        Err(FactoryError::CacheNotSupported)
    } else if str_eq(factory.factory_type.as_str(), "direct") {
        Ok(FactoryChoice::Direct)
    } else {
        Err(FactoryError::NotEnabled)
    }
}

/// The factory of a sandbox: the one that the configuration asks for with Cloud Hypervisor, and one
/// that makes every virtual machine anew with any other hypervisor.
pub fn get_factory_instance<A>(
    config: &TomlConfig<A>,
    names: &PartNames,
) -> (r: Result<FactoryChoice, FactoryError>)
    ensures
        r == (if config.hypervisor_name@ == names.cloud_hypervisor@ {
            factory_base(config.factory)
        } else {
            Ok(FactoryChoice::Direct)
        }),
{
    if str_eq(config.hypervisor_name.as_str(), names.cloud_hypervisor.as_str()) {
        get_factory_base(&config.factory)
    } else {
        Ok(FactoryChoice::Direct)
    }
}

/// A factory is chosen by its type alone: a template, which needs a place, or none. A cache is not
/// supported, and any other type means that there is no factory.
pub proof fn law_type_chooses_factory(
    factory: FactoryConfig,
    r: Result<FactoryChoice, FactoryError>,
)
    requires
        call_ensures(get_factory_base, (&factory,), r),
    ensures
        ({
            let t = factory.factory_type@;
            &&& r == Ok::<FactoryChoice, FactoryError>(FactoryChoice::Template) <==> t
                == "template"@ && factory.template_path@.len() > 0
            &&& r == Err::<FactoryChoice, FactoryError>(FactoryError::NoTemplatePath) <==> t
                == "template"@ && factory.template_path@.len() == 0
            &&& r == Ok::<FactoryChoice, FactoryError>(FactoryChoice::Direct) <==> t == "direct"@
            &&& r == Err::<FactoryChoice, FactoryError>(FactoryError::CacheNotSupported) <==> t
                == "cache"@
            &&& r == Err::<FactoryChoice, FactoryError>(FactoryError::NotEnabled) <==> t
                != "template"@ && t != "direct"@ && t != "cache"@
        }),
{
    reveal_strlit("template");
    reveal_strlit("cache");
    reveal_strlit("direct");
    assert("template"@.len() != "cache"@.len());
    assert("template"@.len() != "direct"@.len());
    assert("cache"@.len() != "direct"@.len());
}

/// Only for the one hypervisor that supports it does the factory's type count: every other has its
/// machines made directly.
pub proof fn law_other_hypervisors_go_direct<A>(
    config: TomlConfig<A>,
    names: PartNames,
    r: Result<FactoryChoice, FactoryError>,
    by_type: Result<FactoryChoice, FactoryError>,
)
    requires
        call_ensures(get_factory_instance::<A>, (&config, &names), r),
        call_ensures(get_factory_base, (&config.factory,), by_type),
    ensures
        config.hypervisor_name@ != names.cloud_hypervisor@ ==> r == Ok::<
            FactoryChoice,
            FactoryError,
        >(FactoryChoice::Direct),
        config.hypervisor_name@ == names.cloud_hypervisor@ ==> r == by_type,
{
}

/// A machine that is made directly has the configuration that it was asked for with, and there is
/// nothing to close.
pub proof fn law_direct_changes_nothing<A>(
    vm: VMConfig<A>,
    direct: Direct<A>,
    config: TomlConfig<A>,
    r: Result<TomlConfig<A>, FromTemplateError>,
    path_exists: bool,
    steps: Vec<CloseStep>,
    kept: &VMConfig<A>,
)
    requires
        call_ensures(Direct::<A>::new, (vm,), direct),
        call_ensures(<Direct<A> as FactoryBase<A>>::get_base_vm, (&direct, config), r),
        call_ensures(<Direct<A> as FactoryBase<A>>::close_factory, (&direct, path_exists), steps),
        call_ensures(<Direct<A> as FactoryBase<A>>::config, (&direct,), kept),
    ensures
        r == Ok::<TomlConfig<A>, FromTemplateError>(config),
        steps@.len() == 0,
        *kept == vm,
{
}

/// Every [`FactoryError`] is told in its own words.
pub proof fn law_factory_error_in_words(e: FactoryError, r: &'static str)
    requires
        call_ensures(FactoryError::message, (&e,), r),
    ensures
        e is NoTemplatePath ==> r@ == "template_path is not set"@,
        e is CacheNotSupported ==> r@ == "cache factory is not supported yet"@,
        e is NotEnabled ==> r@ == "vm factory not enabled"@,
{
}

} // verus!
