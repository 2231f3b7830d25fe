use vstd::prelude::*;

use crate::dotnet_templates::{
    DotnetEvent, DotnetRuntimeRundownEvent, DotnetRuntimeRundownRuntimeStartArgs,
    LoaderAppDomainDCStartArgs, LoaderAssemblyLoadArgs, LoaderDomainModuleDCStartArgs,
    LoaderDomainModuleLoadArgs, LoaderThreadDCStopArgs, ProcessRundownArgs, WinKernProcImageLoad,
};
use crate::etwdesc::{
    dotnet_event_desc, dotnet_event_desc_spec, dotnet_rundown_event_desc,
    dotnet_rundown_event_desc_spec, kernproc_event_desc, kernproc_event_desc_spec,
};
use crate::procinfo::Process;

verus! {

broadcast use vstd::string::group_string_axioms;

/// The properties of a Microsoft-Windows-Kernel-Process event, each as
/// decoded under its property name (`None` where it is absent).
pub struct KernProcProperties {
    /// `ProcessID`
    pub process_id: Option<u32>,
    /// `ImageCheckSum`
    pub image_check_sum: Option<u32>,
    /// `TimeDateStamp`
    pub time_date_stamp: Option<u32>,
    /// `ImageName`
    pub image_name: Option<String>,
    /// `CreateTime`
    pub create_time: Option<u64>,
    /// `ParentProcessID`
    pub parent_process_id: Option<u32>,
    /// `SessionID`
    pub session_id: Option<u32>,
    /// `Flags`
    pub flags: Option<u32>,
    /// `ImageChecksum`
    pub image_checksum: Option<u32>,
    /// `PackageFullName`
    pub package_full_name: Option<String>,
    /// `PackageRelativeAppID`
    pub package_relative_app_id: Option<String>,
}

/// What the kernel-process observer does with an event.
pub enum KernProcOutcome {
    /// An image load or unload to record; `print` when its checksum is 0.
    ImageEvent { event: WinKernProcImageLoad, print: bool },
    /// A process rundown, only printed.
    Rundown(ProcessRundownArgs),
    /// Nothing.
    Ignore,
}

/// The provider name the kernel-process observer stamps on its events.
pub open spec fn kernproc_provider() -> Seq<char> {
    "Microsoft-Windows-Kernel-Process"@
}

/// A looked-up process, kept only when one was found (id not 0).
pub open spec fn found_process(found: Option<Process>) -> Option<Process> {
    match found {
        Some(p) => if p.process_id != 0 {
            Some(p)
        } else {
            None
        },
        None => None,
    }
}

/// The process id whose process must be looked up before
/// `parse_kernproc_event`: that of an image load or unload, when it has one.
pub fn kernproc_lookup_pid(event_id: u16, process_id: Option<u32>) -> (r: Option<u32>)
    ensures
        r == (if event_id == 5 || event_id == 6 {
            process_id
        } else {
            None
        }),
{
    if event_id == 5 || event_id == 6 {
        process_id
    } else {
        None
    }
}

/// Whether `e` is the image event built from `props`, with `found` attached.
pub open spec fn is_image_event(
    e: WinKernProcImageLoad,
    event_id: u16,
    ts_str: Seq<char>,
    props: KernProcProperties,
    found: Option<Process>,
) -> bool {
    &&& e.ts_str@ == ts_str
    &&& e.event_id == event_id
    &&& e.event_desc@ == kernproc_event_desc_spec(event_id)
    &&& e.provider_name@ == kernproc_provider()
    &&& e.process_id == props.process_id
    &&& e.image_check_sum == props.image_check_sum
    &&& e.time_date_stamp == props.time_date_stamp
    &&& e.image_name == props.image_name
    &&& e.associated_process == found_process(found)
}

/// Whether `e` is the rundown event built from `props`.
pub open spec fn is_rundown_event(
    e: ProcessRundownArgs,
    event_id: u16,
    ts_str: Seq<char>,
    props: KernProcProperties,
) -> bool {
    &&& e.ts_str@ == ts_str
    &&& e.event_id == event_id
    &&& e.event_desc@ == kernproc_event_desc_spec(event_id)
    &&& e.provider_name@ == kernproc_provider()
    &&& e.process_id == props.process_id
    &&& e.create_time == props.create_time
    &&& e.parent_process_id == props.parent_process_id
    &&& e.session_id == props.session_id
    &&& e.flags == props.flags
    &&& e.image_name == props.image_name
    &&& e.image_checksum == props.image_checksum
    &&& e.time_date_stamp == props.time_date_stamp
    &&& e.package_full_name == props.package_full_name
    &&& e.package_relative_app_id == props.package_relative_app_id
}

/// Decides what to do with a Kernel-Process event taken at `ts_str`: an
/// image load (5) or unload (6) with a process id is recorded, with the
/// process `found` for that id attached when it is a real one, and printed
/// when its checksum is 0; one without a process id is dropped; a process
/// rundown (15) is printed; anything else is dropped.
pub fn parse_kernproc_event(
    event_id: u16,
    ts_str: String,
    props: KernProcProperties,
    found: Option<Process>,
) -> (r: KernProcOutcome)
    ensures
        (event_id == 5 || event_id == 6) && props.process_id is Some ==> match r {
            KernProcOutcome::ImageEvent { event, print } => is_image_event(
                event,
                event_id,
                ts_str@,
                props,
                found,
            ) && print == (props.image_check_sum == Some(0u32)),
            _ => false,
        },
        (event_id == 5 || event_id == 6) && props.process_id is None ==> r is Ignore,
        event_id == 15 ==> match r {
            KernProcOutcome::Rundown(e) => is_rundown_event(e, event_id, ts_str@, props),
            _ => false,
        },
        event_id != 5 && event_id != 6 && event_id != 15 ==> r is Ignore,
{
    let desc = kernproc_event_desc(event_id);
    if event_id == 5 || event_id == 6 {
        if props.process_id.is_none() {
            return KernProcOutcome::Ignore;
        }
        let associated_process = match found {
            Some(p) => if p.process_id != 0 {
                Some(p)
            } else {
                None
            },
            None => None,
        };
        let print = match props.image_check_sum {
            Some(c) => c == 0,
            None => false,
        };
        let event = WinKernProcImageLoad {
            ts_str: ts_str,
            event_id: event_id,
            event_desc: desc.to_string(),
            provider_name: "Microsoft-Windows-Kernel-Process".to_string(),
            process_id: props.process_id,
            image_check_sum: props.image_check_sum,
            time_date_stamp: props.time_date_stamp,
            image_name: props.image_name,
            associated_process: associated_process,
        };
        KernProcOutcome::ImageEvent { event, print }
    } else if event_id == 15 {
        KernProcOutcome::Rundown(
            ProcessRundownArgs {
                ts_str: ts_str,
                event_id: event_id,
                event_desc: desc.to_string(),
                provider_name: "Microsoft-Windows-Kernel-Process".to_string(),
                process_id: props.process_id,
                create_time: props.create_time,
                parent_process_id: props.parent_process_id,
                session_id: props.session_id,
                flags: props.flags,
                image_name: props.image_name,
                image_checksum: props.image_checksum,
                time_date_stamp: props.time_date_stamp,
                package_full_name: props.package_full_name,
                package_relative_app_id: props.package_relative_app_id,
            },
        )
    } else {
        KernProcOutcome::Ignore
    }
}

/// The properties of a .NET runtime or rundown event, each as decoded under
/// its property name (`None` where it is absent).
pub struct DotnetProperties {
    /// `ModuleID`
    pub module_id: Option<u64>,
    /// `AssemblyID`
    pub assembly_id: Option<u64>,
    /// `AppDomainID`
    pub app_domain_id: Option<u64>,
    /// `ModuleFlags`
    pub module_flags: Option<u32>,
    /// `Reserved1`
    pub reserved1: Option<u32>,
    /// `ModuleILPath`
    pub module_il_path: Option<String>,
    /// `ModuleNativePath`
    pub module_native_path: Option<String>,
    /// `ClrInstanceID`
    pub clr_instance_id: Option<u16>,
    /// `AppDomainFlags`
    pub app_domain_flags: Option<u32>,
    /// `AppDomainName`
    pub app_domain_name: Option<String>,
    /// `AppDomainIndex`
    pub app_domain_index: Option<u32>,
    /// `ManagedThreadID`
    pub managed_thread_id: Option<u64>,
    /// `Flags`
    pub flags: Option<u32>,
    /// `ManagedThreadIndex`
    pub managed_thread_index: Option<u32>,
    /// `OSThreadID`
    pub os_thread_id: Option<u32>,
    /// `Sku`
    pub sku: Option<u16>,
    /// `BclMajorVersion`
    pub bcl_major_version: Option<u16>,
    /// `BclMinorVersion`
    pub bcl_minor_version: Option<u16>,
    /// `BclBuildNumber`
    pub bcl_build_number: Option<u16>,
    /// `BclQfeNumber`
    pub bcl_qfe_number: Option<u16>,
    /// `VMMajorVersion`
    pub vm_major_version: Option<u16>,
    /// `VMMinorVersion`
    pub vm_minor_version: Option<u16>,
    /// `VMQfeNumber`
    pub vm_qfe_number: Option<u16>,
    /// `StartupFlags`
    pub startup_flags: Option<u32>,
    /// `StartupMode`
    pub startup_mode: Option<u8>,
    /// `CommandLine`
    pub command_line: Option<String>,
    /// `ComObjectGuid`
    pub com_object_guid: Option<String>,
    /// `RuntimeDllPath`
    pub runtime_dll_path: Option<String>,
    /// `AssemblyFlags`
    pub assembly_flags: Option<u32>,
    /// `FullyQualifiedAssemblyName`
    pub fully_qualified_assembly_name: Option<String>,
    /// `BindingID`
    pub binding_id: Option<u64>,
    /// `Allocated`
    pub allocated: Option<u64>,
    /// `CrlInstanceID`
    pub crl_instance_id: Option<u16>,
}

/// What the .NET rundown observer does with an event.
pub enum RundownOutcome {
    /// Event 187, recorded.
    RuntimeStart(DotnetRuntimeRundownRuntimeStartArgs),
    /// Event 151, recorded.
    ModuleDCStart(LoaderDomainModuleDCStartArgs),
    /// Event 157, recorded.
    AppDomainDCStart(LoaderAppDomainDCStartArgs),
    /// Event 159, recorded.
    ThreadDCStop(LoaderThreadDCStopArgs),
    /// Any other event: printed, with the process of its OS thread when it
    /// names one, and not recorded.
    Unwritten { event: DotnetRuntimeRundownEvent, thread_process: Option<Process> },
}

/// The OS thread whose process must be looked up before
/// `parse_dotnet_rundown_event`: that of any event but 187, 151 and 157,
/// when it names one.
pub fn rundown_lookup_tid(event_id: u16, os_thread_id: Option<u32>) -> (r: Option<u32>)
    ensures
        r == (if event_id == 187 || event_id == 151 || event_id == 157 {
            None
        } else {
            os_thread_id
        }),
{
    if event_id == 187 || event_id == 151 || event_id == 157 {
        None
    } else {
        os_thread_id
    }
}

/// `found` when the event names an OS thread, else nothing.
pub open spec fn thread_lookup(os_thread_id: Option<u32>, found: Option<Process>) -> Option<Process> {
    if os_thread_id is Some {
        found
    } else {
        None
    }
}

/// Whether `e` is the runtime-start event built from `props`. The VM build
/// number is read from the `VMQfeNumber` property, as the observer does.
pub open spec fn is_runtime_start(
    e: DotnetRuntimeRundownRuntimeStartArgs,
    event_id: u16,
    ts_str: Seq<char>,
    props: DotnetProperties,
) -> bool {
    &&& e.ts_str@ == ts_str
    &&& e.event_id == event_id
    &&& e.event_description@ == dotnet_rundown_event_desc_spec(event_id)
    &&& e.clr_instance_id == props.clr_instance_id
    &&& e.sku == props.sku
    &&& e.bcl_major_version == props.bcl_major_version
    &&& e.bcl_minor_version == props.bcl_minor_version
    &&& e.bcl_build_number == props.bcl_build_number
    &&& e.bcl_qfe_number == props.bcl_qfe_number
    &&& e.vm_major_version == props.vm_major_version
    &&& e.vm_minor_version == props.vm_minor_version
    &&& e.vm_build_number == props.vm_qfe_number
    &&& e.vm_qfe_number == props.vm_qfe_number
    &&& e.startup_flags == props.startup_flags
    &&& e.startup_mode == props.startup_mode
    &&& e.command_line == props.command_line
    &&& e.com_object_guid == props.com_object_guid
    &&& e.runtime_dll_path == props.runtime_dll_path
}

/// Whether `e` is the module rundown event built from `props`.
pub open spec fn is_module_dc_start(
    e: LoaderDomainModuleDCStartArgs,
    event_id: u16,
    ts_str: Seq<char>,
    props: DotnetProperties,
) -> bool {
    &&& e.ts_str@ == ts_str
    &&& e.event_id == event_id
    &&& e.event_description@ == dotnet_rundown_event_desc_spec(event_id)
    &&& e.module_id == props.module_id
    &&& e.assembly_id == props.assembly_id
    &&& e.app_domain_id == props.app_domain_id
    &&& e.module_flags == props.module_flags
    &&& e.reserved1 == props.reserved1
    &&& e.module_il_path == props.module_il_path
    &&& e.module_native_path == props.module_native_path
    &&& e.clr_instance_id == props.clr_instance_id
}

/// Whether `e` is the app-domain rundown event built from `props`.
pub open spec fn is_app_domain_dc_start(
    e: LoaderAppDomainDCStartArgs,
    event_id: u16,
    ts_str: Seq<char>,
    props: DotnetProperties,
) -> bool {
    &&& e.ts_str@ == ts_str
    &&& e.event_id == event_id
    &&& e.event_description@ == dotnet_rundown_event_desc_spec(event_id)
    &&& e.app_domain_id == props.app_domain_id
    &&& e.app_domain_flags == props.app_domain_flags
    &&& e.app_domain_name == props.app_domain_name
    &&& e.app_domain_index == props.app_domain_index
    &&& e.clr_instance_id == props.clr_instance_id
}

/// Whether `e` is the thread rundown event built from `props`, with the
/// process of its OS thread.
pub open spec fn is_thread_dc_stop(
    e: LoaderThreadDCStopArgs,
    event_id: u16,
    ts_str: Seq<char>,
    props: DotnetProperties,
    found: Option<Process>,
) -> bool {
    &&& e.ts_str@ == ts_str
    &&& e.event_id == event_id
    &&& e.event_description@ == dotnet_rundown_event_desc_spec(event_id)
    &&& e.managed_thread_id == props.managed_thread_id
    &&& e.app_domain_id == props.app_domain_id
    &&& e.flags == props.flags
    &&& e.managed_thread_index == props.managed_thread_index
    &&& e.os_thread_id == props.os_thread_id
    &&& e.clr_instance_id == props.clr_instance_id
    &&& e.associated_process == thread_lookup(props.os_thread_id, found)
}

/// Whether `e` is the generic rundown event built from `props`.
pub open spec fn is_rundown_other(
    e: DotnetRuntimeRundownEvent,
    event_id: u16,
    ts_str: Seq<char>,
    props: DotnetProperties,
) -> bool {
    &&& e.ts_str@ == ts_str
    &&& e.event_id == event_id
    &&& e.event_description@ == dotnet_rundown_event_desc_spec(event_id)
    &&& e.app_domain_id == props.app_domain_id
    &&& e.app_domain_flags == props.app_domain_flags
    &&& e.app_domain_name == props.app_domain_name
    &&& e.app_domain_index == props.app_domain_index
    &&& e.clr_instance_id == props.clr_instance_id
    &&& e.os_thread_id == props.os_thread_id
}

/// Decides what to do with a .NET rundown event taken at `ts_str`, with
/// `found` the process looked up for its OS thread (see
/// `rundown_lookup_tid`).
pub fn parse_dotnet_rundown_event(
    event_id: u16,
    ts_str: String,
    props: DotnetProperties,
    found: Option<Process>,
) -> (r: RundownOutcome)
    ensures
        event_id == 187 ==> match r {
            RundownOutcome::RuntimeStart(e) => is_runtime_start(e, event_id, ts_str@, props),
            _ => false,
        },
        event_id == 151 ==> match r {
            RundownOutcome::ModuleDCStart(e) => is_module_dc_start(e, event_id, ts_str@, props),
            _ => false,
        },
        event_id == 157 ==> match r {
            RundownOutcome::AppDomainDCStart(e) => is_app_domain_dc_start(
                e,
                event_id,
                ts_str@,
                props,
            ),
            _ => false,
        },
        event_id == 159 ==> match r {
            RundownOutcome::ThreadDCStop(e) => is_thread_dc_stop(
                e,
                event_id,
                ts_str@,
                props,
                found,
            ),
            _ => false,
        },
        event_id != 187 && event_id != 151 && event_id != 157 && event_id != 159 ==> match r {
            RundownOutcome::Unwritten { event, thread_process } => is_rundown_other(
                event,
                event_id,
                ts_str@,
                props,
            ) && thread_process == thread_lookup(props.os_thread_id, found),
            _ => false,
        },
{
    let desc = dotnet_rundown_event_desc(event_id).to_string();
    if event_id == 187 {
        RundownOutcome::RuntimeStart(
            DotnetRuntimeRundownRuntimeStartArgs {
                ts_str: ts_str,
                event_id: event_id,
                event_description: desc,
                clr_instance_id: props.clr_instance_id,
                sku: props.sku,
                bcl_major_version: props.bcl_major_version,
                bcl_minor_version: props.bcl_minor_version,
                bcl_build_number: props.bcl_build_number,
                bcl_qfe_number: props.bcl_qfe_number,
                vm_major_version: props.vm_major_version,
                vm_minor_version: props.vm_minor_version,
                vm_build_number: props.vm_qfe_number,
                vm_qfe_number: props.vm_qfe_number,
                startup_flags: props.startup_flags,
                startup_mode: props.startup_mode,
                command_line: props.command_line,
                com_object_guid: props.com_object_guid,
                runtime_dll_path: props.runtime_dll_path,
            },
        )
    } else if event_id == 151 {
        RundownOutcome::ModuleDCStart(
            LoaderDomainModuleDCStartArgs {
                ts_str: ts_str,
                event_id: event_id,
                event_description: desc,
                module_id: props.module_id,
                assembly_id: props.assembly_id,
                app_domain_id: props.app_domain_id,
                module_flags: props.module_flags,
                reserved1: props.reserved1,
                module_il_path: props.module_il_path,
                module_native_path: props.module_native_path,
                clr_instance_id: props.clr_instance_id,
            },
        )
    } else if event_id == 157 {
        RundownOutcome::AppDomainDCStart(
            LoaderAppDomainDCStartArgs {
                ts_str: ts_str,
                event_id: event_id,
                event_description: desc,
                app_domain_id: props.app_domain_id,
                app_domain_flags: props.app_domain_flags,
                app_domain_name: props.app_domain_name,
                app_domain_index: props.app_domain_index,
                clr_instance_id: props.clr_instance_id,
            },
        )
    } else {
        let thread_process = match props.os_thread_id {
            Some(_) => found,
            None => None,
        };
        if event_id == 159 {
            RundownOutcome::ThreadDCStop(
                LoaderThreadDCStopArgs {
                    ts_str: ts_str,
                    event_id: event_id,
                    event_description: desc,
                    managed_thread_id: props.managed_thread_id,
                    app_domain_id: props.app_domain_id,
                    flags: props.flags,
                    managed_thread_index: props.managed_thread_index,
                    os_thread_id: props.os_thread_id,
                    clr_instance_id: props.clr_instance_id,
                    associated_process: thread_process,
                },
            )
        } else {
            RundownOutcome::Unwritten {
                event: DotnetRuntimeRundownEvent {
                    ts_str: ts_str,
                    event_id: event_id,
                    event_description: desc,
                    app_domain_id: props.app_domain_id,
                    app_domain_flags: props.app_domain_flags,
                    app_domain_name: props.app_domain_name,
                    app_domain_index: props.app_domain_index,
                    clr_instance_id: props.clr_instance_id,
                    os_thread_id: props.os_thread_id,
                },
                thread_process: thread_process,
            }
        }
    }
}

/// What the .NET runtime observer does with an event: each is recorded.
pub enum DotnetOutcome {
    /// Event 151.
    ModuleLoad(LoaderDomainModuleLoadArgs),
    /// Event 154.
    AssemblyLoad(LoaderAssemblyLoadArgs),
    /// Any other event.
    Generic(DotnetEvent),
}

/// The OS thread whose process must be looked up before `parse_dotnet_event`:
/// that of any event but 151 and 154, when it names one.
pub fn dotnet_lookup_tid(event_id: u16, os_thread_id: Option<u32>) -> (r: Option<u32>)
    ensures
        r == (if event_id == 151 || event_id == 154 {
            None
        } else {
            os_thread_id
        }),
{
    if event_id == 151 || event_id == 154 {
        None
    } else {
        os_thread_id
    }
}

/// Whether `e` is the module-load event built from `props`.
pub open spec fn is_module_load(
    e: LoaderDomainModuleLoadArgs,
    event_id: u16,
    ts_str: Seq<char>,
    props: DotnetProperties,
) -> bool {
    &&& e.ts_str@ == ts_str
    &&& e.event_id == event_id
    &&& e.event_description@ == dotnet_event_desc_spec(event_id)
    &&& e.module_id == props.module_id
    &&& e.assembly_id == props.assembly_id
    &&& e.app_domain_id == props.app_domain_id
    &&& e.module_flags == props.module_flags
    &&& e.reserved1 == props.reserved1
    &&& e.module_il_path == props.module_il_path
    &&& e.module_native_path == props.module_native_path
    &&& e.clr_instance_id == props.clr_instance_id
}

/// Whether `e` is the assembly-load event built from `props`.
pub open spec fn is_assembly_load(
    e: LoaderAssemblyLoadArgs,
    event_id: u16,
    ts_str: Seq<char>,
    props: DotnetProperties,
) -> bool {
    &&& e.ts_str@ == ts_str
    &&& e.event_id == event_id
    &&& e.event_description@ == dotnet_event_desc_spec(event_id)
    &&& e.assembly_id == props.assembly_id
    &&& e.app_domain_id == props.app_domain_id
    &&& e.assembly_flags == props.assembly_flags
    &&& e.fully_qualified_assembly_name == props.fully_qualified_assembly_name
    &&& e.binding_id == props.binding_id
    &&& e.clr_instance_id == props.clr_instance_id
}

/// Whether `e` is the generic runtime event built from `props`. Its CLR
/// instance id is read from the `CrlInstanceID` property, as the observer
/// does; the process of its OS thread is attached when a real one was found.
pub open spec fn is_generic_dotnet(
    e: DotnetEvent,
    event_id: u16,
    ts_str: Seq<char>,
    props: DotnetProperties,
    found: Option<Process>,
) -> bool {
    &&& e.ts_str@ == ts_str
    &&& e.event_id == event_id
    &&& e.event_description@ == dotnet_event_desc_spec(event_id)
    &&& e.app_domain_id == props.app_domain_id
    &&& e.assembly_flags == props.assembly_flags
    &&& e.app_domain_name == props.app_domain_name
    &&& e.allocated == props.allocated
    &&& e.clr_instance_id == props.crl_instance_id
    &&& e.managed_thread_id == props.managed_thread_id
    &&& e.flags == props.flags
    &&& e.os_thread_id == props.os_thread_id
    &&& e.associated_process == found_process(thread_lookup(props.os_thread_id, found))
}

/// Decides what to do with a .NET runtime event taken at `ts_str`, with
/// `found` the process looked up for its OS thread (see `dotnet_lookup_tid`).
pub fn parse_dotnet_event(
    event_id: u16,
    ts_str: String,
    props: DotnetProperties,
    found: Option<Process>,
) -> (r: DotnetOutcome)
    ensures
        event_id == 151 ==> match r {
            DotnetOutcome::ModuleLoad(e) => is_module_load(e, event_id, ts_str@, props),
            _ => false,
        },
        event_id == 154 ==> match r {
            DotnetOutcome::AssemblyLoad(e) => is_assembly_load(e, event_id, ts_str@, props),
            _ => false,
        },
        event_id != 151 && event_id != 154 ==> match r {
            DotnetOutcome::Generic(e) => is_generic_dotnet(e, event_id, ts_str@, props, found),
            _ => false,
        },
{
    let desc = dotnet_event_desc(event_id).to_string();
    if event_id == 151 {
        DotnetOutcome::ModuleLoad(
            LoaderDomainModuleLoadArgs {
                ts_str: ts_str,
                event_id: event_id,
                event_description: desc,
                module_id: props.module_id,
                assembly_id: props.assembly_id,
                app_domain_id: props.app_domain_id,
                module_flags: props.module_flags,
                reserved1: props.reserved1,
                module_il_path: props.module_il_path,
                module_native_path: props.module_native_path,
                clr_instance_id: props.clr_instance_id,
            },
        )
    } else if event_id == 154 {
        DotnetOutcome::AssemblyLoad(
            LoaderAssemblyLoadArgs {
                ts_str: ts_str,
                event_id: event_id,
                event_description: desc,
                assembly_id: props.assembly_id,
                app_domain_id: props.app_domain_id,
                assembly_flags: props.assembly_flags,
                fully_qualified_assembly_name: props.fully_qualified_assembly_name,
                binding_id: props.binding_id,
                clr_instance_id: props.clr_instance_id,
            },
        )
    } else {
        let associated_process = match props.os_thread_id {
            Some(_) => match found {
                Some(p) => if p.process_id != 0 {
                    Some(p)
                } else {
                    None
                },
                None => None,
            },
            None => None,
        };
        DotnetOutcome::Generic(
            DotnetEvent {
                ts_str: ts_str,
                event_id: event_id,
                event_description: desc,
                app_domain_id: props.app_domain_id,
                assembly_flags: props.assembly_flags,
                app_domain_name: props.app_domain_name,
                allocated: props.allocated,
                clr_instance_id: props.crl_instance_id,
                managed_thread_id: props.managed_thread_id,
                flags: props.flags,
                os_thread_id: props.os_thread_id,
                associated_process: associated_process,
            },
        )
    }
}

} // verus!
