use vstd::prelude::*;

use crate::procinfo::Process;

verus! {

/// Kernel-Process event 5 or 6: an image loaded into or unloaded from a
/// process, with the process when it could be found.
pub struct WinKernProcImageLoad {
    pub ts_str: String,
    pub event_id: u16,
    pub event_desc: String,
    pub provider_name: String,
    pub process_id: Option<u32>,
    pub image_check_sum: Option<u32>,
    pub time_date_stamp: Option<u32>,
    pub image_name: Option<String>,
    pub associated_process: Option<Process>,
}

/// Kernel-Process event 15: a process listed at trace start.
pub struct ProcessRundownArgs {
    pub ts_str: String,
    pub event_id: u16,
    pub event_desc: String,
    pub provider_name: String,
    pub process_id: Option<u32>,
    pub create_time: Option<u64>,
    pub parent_process_id: Option<u32>,
    pub session_id: Option<u32>,
    pub flags: Option<u32>,
    pub image_name: Option<String>,
    pub image_checksum: Option<u32>,
    pub time_date_stamp: Option<u32>,
    pub package_full_name: Option<String>,
    pub package_relative_app_id: Option<String>,
}

/// .NET rundown event 187: a runtime that was started.
pub struct DotnetRuntimeRundownRuntimeStartArgs {
    pub ts_str: String,
    pub event_id: u16,
    pub event_description: String,
    pub clr_instance_id: Option<u16>,
    pub sku: Option<u16>,
    pub bcl_major_version: Option<u16>,
    pub bcl_minor_version: Option<u16>,
    pub bcl_build_number: Option<u16>,
    pub bcl_qfe_number: Option<u16>,
    pub vm_major_version: Option<u16>,
    pub vm_minor_version: Option<u16>,
    pub vm_build_number: Option<u16>,
    pub vm_qfe_number: Option<u16>,
    pub startup_flags: Option<u32>,
    pub startup_mode: Option<u8>,
    pub command_line: Option<String>,
    pub com_object_guid: Option<String>,
    pub runtime_dll_path: Option<String>,
}

/// .NET rundown event 151: a module loaded in an app domain.
pub struct LoaderDomainModuleDCStartArgs {
    pub ts_str: String,
    pub event_id: u16,
    pub event_description: String,
    pub module_id: Option<u64>,
    pub assembly_id: Option<u64>,
    pub app_domain_id: Option<u64>,
    pub module_flags: Option<u32>,
    pub reserved1: Option<u32>,
    pub module_il_path: Option<String>,
    pub module_native_path: Option<String>,
    pub clr_instance_id: Option<u16>,
}

/// .NET rundown event 157: an app domain.
pub struct LoaderAppDomainDCStartArgs {
    pub ts_str: String,
    pub event_id: u16,
    pub event_description: String,
    pub app_domain_id: Option<u64>,
    pub app_domain_flags: Option<u32>,
    pub app_domain_name: Option<String>,
    pub app_domain_index: Option<u32>,
    pub clr_instance_id: Option<u16>,
}

/// .NET rundown event 159: a managed thread, with the process of its OS
/// thread.
pub struct LoaderThreadDCStopArgs {
    pub ts_str: String,
    pub event_id: u16,
    pub event_description: String,
    pub managed_thread_id: Option<u64>,
    pub app_domain_id: Option<u64>,
    pub flags: Option<u32>,
    pub managed_thread_index: Option<u32>,
    pub os_thread_id: Option<u32>,
    pub clr_instance_id: Option<u16>,
    pub associated_process: Option<Process>,
}

/// Any other .NET rundown event.
pub struct DotnetRuntimeRundownEvent {
    pub ts_str: String,
    pub event_id: u16,
    pub event_description: String,
    pub app_domain_id: Option<u64>,
    pub app_domain_flags: Option<u32>,
    pub app_domain_name: Option<String>,
    pub app_domain_index: Option<u32>,
    pub clr_instance_id: Option<u16>,
    pub os_thread_id: Option<u32>,
}

/// .NET runtime event 151: a module loaded in an app domain.
pub struct LoaderDomainModuleLoadArgs {
    pub ts_str: String,
    pub event_id: u16,
    pub event_description: String,
    pub module_id: Option<u64>,
    pub assembly_id: Option<u64>,
    pub app_domain_id: Option<u64>,
    pub module_flags: Option<u32>,
    pub reserved1: Option<u32>,
    pub module_il_path: Option<String>,
    pub module_native_path: Option<String>,
    pub clr_instance_id: Option<u16>,
}

/// .NET runtime event 154: an assembly loaded.
pub struct LoaderAssemblyLoadArgs {
    pub ts_str: String,
    pub event_id: u16,
    pub event_description: String,
    pub assembly_id: Option<u64>,
    pub app_domain_id: Option<u64>,
    pub assembly_flags: Option<u32>,
    pub fully_qualified_assembly_name: Option<String>,
    pub binding_id: Option<u64>,
    pub clr_instance_id: Option<u16>,
}

/// Any other .NET runtime event, with the process of its OS thread when one
/// was found.
pub struct DotnetEvent {
    pub ts_str: String,
    pub event_id: u16,
    pub event_description: String,
    pub app_domain_id: Option<u64>,
    pub assembly_flags: Option<u32>,
    pub app_domain_name: Option<String>,
    pub allocated: Option<u64>,
    pub clr_instance_id: Option<u16>,
    pub managed_thread_id: Option<u64>,
    pub flags: Option<u32>,
    pub os_thread_id: Option<u32>,
    pub associated_process: Option<Process>,
}

} // verus!
