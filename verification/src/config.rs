//! Changing the configuration.
use vstd::prelude::*;
use crate::types::config::{updated, Config, ConfigFnOrPartial, PartialConfig};

verus! {

/// The update that is merged: the one given, or the one that the function
/// given computes from the configuration as it is.
pub open spec fn update_of(config: Config, new_config: ConfigFnOrPartial) -> PartialConfig {
    match new_config {
        ConfigFnOrPartial::Fn(config_fn) => config_fn.computed(config),
        ConfigFnOrPartial::Partial(partial) => partial,
    }
}

/// Merges an update into the configuration: the fields that the update sets
/// are taken over, the others stay. An update given as a function is computed
/// from the configuration as it is.
pub fn configure(config: &mut Config, new_config: ConfigFnOrPartial)
    ensures
        ({
            let partial = update_of(*old(config), new_config);
            &&& final(config).test_id_attribute == updated(
                old(config).test_id_attribute,
                partial.test_id_attribute,
            )
            &&& final(config).default_hidden == updated(
                old(config).default_hidden,
                partial.default_hidden,
            )
            &&& final(config).default_ignore == updated(
                old(config).default_ignore,
                partial.default_ignore,
            )
            &&& final(config).show_original_stack_trace == updated(
                old(config).show_original_stack_trace,
                partial.show_original_stack_trace,
            )
            &&& final(config).throw_suggestions == updated(
                old(config).throw_suggestions,
                partial.throw_suggestions,
            )
            &&& final(config).async_util_timeout == updated(
                old(config).async_util_timeout,
                partial.async_util_timeout,
            )
            &&& final(config).get_element_error == if partial.get_element_error is Some {
                partial.get_element_error
            } else {
                old(config).get_element_error
            }
        }),
{
    let partial = match new_config {
        ConfigFnOrPartial::Fn(config_fn) => config_fn.call(config),
        ConfigFnOrPartial::Partial(partial) => partial,
    };
    config.update(partial);
}

} // verus!
