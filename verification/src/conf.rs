//! Read-only lookups of a module's private configuration block.
//!
//! The host keeps three parallel tables — main, server and location level —
//! each indexed by the small integer slot the host assigned the module at
//! registration time.  The model holds the opaque block pointers as plain
//! integers; index validity is the caller's promise, as it is at the host
//! boundary.

use vstd::prelude::*;

verus! {

/// A module's registration record: its slot in the per-level
/// configuration tables, and its slot in the process-wide context table.
pub struct ModuleRecord {
    pub ctx_index: usize,
    pub index: usize,
}

/// One configuration context: the three parallel tables of opaque
/// per-module configuration block pointers.
pub struct ConfigContext {
    pub main_conf: Vec<u64>,
    pub srv_conf: Vec<u64>,
    pub loc_conf: Vec<u64>,
}

/// The process-wide cycle context: one optional root context per
/// subsystem slot, and the fixed slot where the HTTP subsystem's root
/// context lives.
pub struct CycleContext {
    pub conf_ctx: Vec<Option<ConfigContext>>,
    pub http_slot: usize,
}

/// The module's main-level configuration block.
pub fn ngx_http_conf_get_module_main_conf(cf: &ConfigContext, module: &ModuleRecord) -> (r: u64)
    requires
        module.ctx_index < cf.main_conf@.len(),
    ensures
        r == cf.main_conf@[module.ctx_index as int],
{
    cf.main_conf[module.ctx_index]
}

/// The module's server-level configuration block.
pub fn ngx_http_conf_get_module_srv_conf(cf: &ConfigContext, module: &ModuleRecord) -> (r: u64)
    requires
        module.ctx_index < cf.srv_conf@.len(),
    ensures
        r == cf.srv_conf@[module.ctx_index as int],
{
    cf.srv_conf[module.ctx_index]
}

/// The module's location-level configuration block.
pub fn ngx_http_conf_get_module_loc_conf(cf: &ConfigContext, module: &ModuleRecord) -> (r: u64)
    requires
        module.ctx_index < cf.loc_conf@.len(),
    ensures
        r == cf.loc_conf@[module.ctx_index as int],
{
    cf.loc_conf[module.ctx_index]
}

/// What the process-wide lookup yields: absent when the HTTP subsystem's
/// root context is not installed, otherwise the module's main-level block
/// from that context.
pub open spec fn cycle_main_conf_spec(cycle: CycleContext, module: ModuleRecord) -> Option<u64> {
    match cycle.conf_ctx@[cycle.http_slot as int] {
        None => None,
        Some(ctx) => Some(ctx.main_conf@[module.ctx_index as int]),
    }
}

/// The module's main-level block looked up through the process-wide cycle
/// context, or absent when the HTTP subsystem's root context is missing.
pub fn ngx_cycle_conf_get_module_main_conf(cycle: &CycleContext, module: &ModuleRecord) -> (r:
    Option<u64>)
    requires
        cycle.http_slot < cycle.conf_ctx@.len(),
        cycle.conf_ctx@[cycle.http_slot as int] matches Some(ctx) ==> module.ctx_index
            < ctx.main_conf@.len(),
    ensures
        r == cycle_main_conf_spec(*cycle, *module),
{
    match &cycle.conf_ctx[cycle.http_slot] {
        None => None,
        Some(ctx) => Some(ngx_http_conf_get_module_main_conf(ctx, module)),
    }
}

} // verus!
