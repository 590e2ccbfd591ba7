use hw_telemetry::process::{
    remove_dead_processes, split_environ_entry, ProcessRefreshConfig, ProcessRefreshSelection,
};

fn empty_config() -> ProcessRefreshConfig {
    ProcessRefreshConfig {
        memory: None,
        cpu: None,
        disk_usage: None,
        exe: None,
        cmd: None,
        environ: None,
        cwd: None,
        user: None,
        tasks: None,
    }
}

const DEFAULTS: ProcessRefreshSelection = ProcessRefreshSelection {
    memory: true,
    cpu: true,
    disk_usage: true,
    exe: true,
    cmd: false,
    environ: false,
    cwd: false,
    user: false,
    tasks: false,
};

#[test]
fn no_config_selects_defaults() {
    assert_eq!(ProcessRefreshConfig::selection(&None), DEFAULTS);
}

#[test]
fn empty_config_selects_defaults() {
    assert_eq!(ProcessRefreshConfig::selection(&Some(empty_config())), DEFAULTS);
}

#[test]
fn given_options_override_defaults() {
    let mut c = empty_config();
    c.memory = Some(false);
    c.cmd = Some(true);
    c.tasks = Some(true);
    c.exe = Some(true);
    let s = ProcessRefreshConfig::selection(&Some(c));
    assert_eq!(
        s,
        ProcessRefreshSelection { memory: false, cmd: true, tasks: true, ..DEFAULTS }
    );
}

#[test]
fn dead_processes_removed_by_default() {
    assert!(remove_dead_processes(None));
    assert!(remove_dead_processes(Some(true)));
    assert!(!remove_dead_processes(Some(false)));
}

#[test]
fn environ_entry_splits_at_first_equals() {
    assert_eq!(
        split_environ_entry("PATH=/bin:/usr/bin"),
        (String::from("PATH"), String::from("/bin:/usr/bin"))
    );
    assert_eq!(split_environ_entry("A=b=c"), (String::from("A"), String::from("b=c")));
    assert_eq!(split_environ_entry("EMPTY="), (String::from("EMPTY"), String::new()));
    assert_eq!(split_environ_entry("=x"), (String::new(), String::from("x")));
    assert_eq!(split_environ_entry("Grüße=ü"), (String::from("Grüße"), String::from("ü")));
}

#[test]
fn environ_entry_without_equals_is_all_name() {
    assert_eq!(split_environ_entry("FLAG"), (String::from("FLAG"), String::new()));
    assert_eq!(split_environ_entry(""), (String::new(), String::new()));
}
