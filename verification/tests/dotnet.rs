use telemetry_kit::dotnet_events::{
    dotnet_lookup_tid, kernproc_lookup_pid, parse_dotnet_event, parse_dotnet_rundown_event,
    parse_kernproc_event, rundown_lookup_tid, DotnetOutcome, DotnetProperties, KernProcOutcome,
    KernProcProperties, RundownOutcome,
};
use telemetry_kit::dotnet_templates::WinKernProcImageLoad;
use telemetry_kit::dotnetrec::{
    dng_to_er, dnrrdrsa_to_er, laddcsa_to_er, lala_to_er, ldmdcsa_to_er, ldmla_to_er,
    ltdcsa_to_er, proc_imgload_to_er,
};
use telemetry_kit::procinfo::{default_process, Process};
use telemetry_kit::timefmt::Timestamp;

fn ts(year: i32, month: u32, day: u32, hour: u32, minute: u32, second: u32) -> Timestamp {
    Timestamp { year, month, day, hour, minute, second, nanosecond: 0 }
}

const T: &str = "2024-05-06T07:08:09Z";

fn kern_props(process_id: Option<u32>, check_sum: Option<u32>) -> KernProcProperties {
    KernProcProperties {
        process_id,
        image_check_sum: check_sum,
        time_date_stamp: Some(99),
        image_name: Some("\\Device\\HarddiskVolume3\\Windows\\System32\\ntdll.dll".to_string()),
        create_time: Some(133),
        parent_process_id: Some(4),
        session_id: Some(1),
        flags: Some(0),
        image_checksum: Some(7),
        package_full_name: None,
        package_relative_app_id: None,
    }
}

fn dotnet_props(os_thread_id: Option<u32>) -> DotnetProperties {
    DotnetProperties {
        module_id: Some(11),
        assembly_id: Some(12),
        app_domain_id: Some(13),
        module_flags: Some(14),
        reserved1: Some(0),
        module_il_path: Some("C:\\app\\App.dll".to_string()),
        module_native_path: None,
        clr_instance_id: Some(8),
        app_domain_flags: Some(2),
        app_domain_name: Some("DefaultDomain".to_string()),
        app_domain_index: Some(1),
        managed_thread_id: Some(21),
        flags: Some(3),
        managed_thread_index: Some(22),
        os_thread_id,
        sku: Some(1),
        bcl_major_version: Some(4),
        bcl_minor_version: Some(0),
        bcl_build_number: Some(30319),
        bcl_qfe_number: Some(1),
        vm_major_version: Some(4),
        vm_minor_version: Some(0),
        vm_qfe_number: Some(42),
        startup_flags: Some(0),
        startup_mode: Some(1),
        command_line: Some("App.exe --run".to_string()),
        com_object_guid: None,
        runtime_dll_path: Some("C:\\Windows\\clr.dll".to_string()),
        assembly_flags: Some(5),
        fully_qualified_assembly_name: Some("App, Version=1.0.0.0".to_string()),
        binding_id: Some(31),
        allocated: Some(4096),
        crl_instance_id: None,
    }
}

fn process(pid: u32) -> Process {
    let mut p = default_process();
    p.process_id = pid;
    p.name = "App.exe".to_string();
    p.executable_path = Some("C:\\app\\App.exe".to_string());
    p
}

#[test]
fn image_load_is_recorded_with_its_process() {
    assert_eq!(kernproc_lookup_pid(5, Some(40)), Some(40));
    assert_eq!(kernproc_lookup_pid(15, Some(40)), None);
    match parse_kernproc_event(5, T.to_string(), kern_props(Some(40), Some(0)), Some(process(40))) {
        KernProcOutcome::ImageEvent { event, print } => {
            assert!(print);
            assert_eq!(event.event_desc, "ImageLoad");
            assert_eq!(event.provider_name, "Microsoft-Windows-Kernel-Process");
            assert_eq!(event.associated_process.unwrap().process_id, 40);
            assert_eq!(event.image_check_sum, Some(0));
        },
        _ => panic!("expected an image event"),
    }
}

#[test]
fn image_unload_without_a_found_process() {
    match parse_kernproc_event(6, T.to_string(), kern_props(Some(40), Some(9)), Some(default_process())) {
        KernProcOutcome::ImageEvent { event, print } => {
            assert!(!print);
            assert_eq!(event.event_desc, "ImageUnload");
            assert!(event.associated_process.is_none());
        },
        _ => panic!("expected an image event"),
    }
}

#[test]
fn image_event_without_process_id_is_dropped() {
    assert!(matches!(parse_kernproc_event(5, T.to_string(), kern_props(None, Some(0)), None), KernProcOutcome::Ignore));
    assert!(matches!(parse_kernproc_event(7, T.to_string(), kern_props(Some(1), None), None), KernProcOutcome::Ignore));
}

#[test]
fn process_rundown_reads_image_checksum() {
    match parse_kernproc_event(15, T.to_string(), kern_props(Some(40), Some(1)), None) {
        KernProcOutcome::Rundown(e) => {
            assert_eq!(e.image_checksum, Some(7));
            assert_eq!(e.event_desc, "ProcessRundown");
            assert_eq!(e.create_time, Some(133));
        },
        _ => panic!("expected a rundown"),
    }
}

#[test]
fn runtime_start_takes_vm_build_from_qfe() {
    match parse_dotnet_rundown_event(187, T.to_string(), dotnet_props(None), None) {
        RundownOutcome::RuntimeStart(e) => {
            assert_eq!(e.vm_build_number, Some(42));
            assert_eq!(e.vm_qfe_number, Some(42));
            assert_eq!(e.event_description, "RuntimeStart");
            let er = dnrrdrsa_to_er(e, "{}".to_string()).unwrap();
            assert_eq!(er.src, "DotnetRuntimeRundownRuntimeStart");
            assert_eq!(er.filename, "C:\\Windows\\clr.dll");
            assert_eq!(er.context1, "187");
            assert_eq!(er.context2, "C:\\Windows\\clr.dll");
            assert_eq!(er.context3, "App.exe --run");
            assert_eq!(er.ts, ts(2024, 5, 6, 7, 8, 9));
            assert_eq!(er.host, "*NA");
            assert_eq!(er.ts_type, "etw_ts");
        },
        _ => panic!("expected a runtime start"),
    }
}

#[test]
fn rundown_thread_stop_gets_thread_process() {
    assert_eq!(rundown_lookup_tid(159, Some(900)), Some(900));
    assert_eq!(rundown_lookup_tid(151, Some(900)), None);
    match parse_dotnet_rundown_event(159, T.to_string(), dotnet_props(Some(900)), Some(process(12))) {
        RundownOutcome::ThreadDCStop(e) => {
            assert_eq!(e.associated_process.as_ref().unwrap().process_id, 12);
            let er = ltdcsa_to_er(e, "r".to_string()).unwrap();
            assert_eq!(er.src, "LoaderThreadDCStop");
            assert_eq!(er.context2, "900");
            assert_eq!(er.context3, "13");
            assert_eq!(er.filename, "*NA");
        },
        _ => panic!("expected a thread stop"),
    }
}

#[test]
fn rundown_module_and_app_domain_records() {
    match parse_dotnet_rundown_event(151, T.to_string(), dotnet_props(None), None) {
        RundownOutcome::ModuleDCStart(e) => {
            let er = ldmdcsa_to_er(e, "r".to_string()).unwrap();
            assert_eq!(er.context1, "151");
            assert_eq!(er.context2, "C:\\app\\App.dll");
            assert_eq!(er.filename, "C:\\app\\App.dll");
            assert_eq!(er.src, "LoaderDomainModuleDCStart");
        },
        _ => panic!("expected a module rundown"),
    }
    match parse_dotnet_rundown_event(157, T.to_string(), dotnet_props(None), None) {
        RundownOutcome::AppDomainDCStart(e) => {
            let er = laddcsa_to_er(e, "r".to_string()).unwrap();
            assert_eq!(er.context1, "157");
            assert_eq!(er.context2, "DefaultDomain");
            assert_eq!(er.context3, "13");
        },
        _ => panic!("expected an app domain rundown"),
    }
}

#[test]
fn other_rundown_events_are_not_written() {
    match parse_dotnet_rundown_event(158, T.to_string(), dotnet_props(None), Some(process(3))) {
        RundownOutcome::Unwritten { event, thread_process } => {
            assert_eq!(event.event_description, "LoaderAppDomainDCStop");
            assert!(thread_process.is_none());
        },
        _ => panic!("expected an unwritten event"),
    }
}

#[test]
fn runtime_module_and_assembly_loads() {
    assert_eq!(dotnet_lookup_tid(154, Some(1)), None);
    assert_eq!(dotnet_lookup_tid(85, Some(1)), Some(1));
    match parse_dotnet_event(151, T.to_string(), dotnet_props(None), None) {
        DotnetOutcome::ModuleLoad(e) => {
            let er = ldmla_to_er(e, "r".to_string()).unwrap();
            assert_eq!(er.src, "LoaderDomainModuleLoad");
            assert_eq!(er.filename, "C:\\app\\App.dll");
        },
        _ => panic!("expected a module load"),
    }
    match parse_dotnet_event(154, T.to_string(), dotnet_props(None), None) {
        DotnetOutcome::AssemblyLoad(e) => {
            let er = lala_to_er(e, "r".to_string()).unwrap();
            assert_eq!(er.context1, "154");
            assert_eq!(er.context2, "App, Version=1.0.0.0");
            assert_eq!(er.filename, "*NA");
        },
        _ => panic!("expected an assembly load"),
    }
}

#[test]
fn generic_runtime_event_reads_crl_instance_id() {
    match parse_dotnet_event(85, T.to_string(), dotnet_props(Some(5)), Some(process(44))) {
        DotnetOutcome::Generic(e) => {
            assert_eq!(e.clr_instance_id, None);
            assert_eq!(e.event_description, "AppDomainResourceManagementThreadCreated");
            let er = dng_to_er(e, "r".to_string()).unwrap();
            assert_eq!(er.filename, "C:\\app\\App.exe");
            assert_eq!(er.context2, "DefaultDomain");
        },
        _ => panic!("expected a generic event"),
    }
    match parse_dotnet_event(83, T.to_string(), dotnet_props(None), Some(process(44))) {
        DotnetOutcome::Generic(e) => {
            assert!(e.associated_process.is_none());
            let er = dng_to_er(e, "r".to_string()).unwrap();
            assert_eq!(er.filename, "NA");
        },
        _ => panic!("expected a generic event"),
    }
}

#[test]
fn image_load_record() {
    let e = WinKernProcImageLoad {
        ts_str: "garbage".to_string(),
        event_id: 6,
        event_desc: "ImageUnload".to_string(),
        provider_name: "Microsoft-Windows-Kernel-Process".to_string(),
        process_id: Some(4),
        image_check_sum: None,
        time_date_stamp: None,
        image_name: None,
        associated_process: None,
    };
    let er = proc_imgload_to_er(e, "r".to_string()).unwrap();
    assert_eq!(er.ts, ts(1970, 1, 1, 0, 0, 0));
    assert_eq!(er.context1, "5");
    assert_eq!(er.context2, "NA");
    assert_eq!(er.context3, "NA");
    assert_eq!(er.filename, "NA");
    assert_eq!(er.src, "proc_image_load");
}
