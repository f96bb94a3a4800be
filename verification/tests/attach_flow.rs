use sk_lookup::program::{
    AttachType, LinkHandle, LinkRequest, LoadRequest, ProgramError, ProgramType, SkLookup,
};

fn loaded_with(fd: i32) -> SkLookup {
    let mut prog = SkLookup::new();
    let _req = prog.load();
    assert_eq!(prog.complete_load(Ok(fd)), Ok(()));
    assert!(prog.is_loaded());
    prog
}

#[test]
fn new_manager_is_unloaded() {
    let prog = SkLookup::new();
    assert!(!prog.is_loaded());
}

#[test]
fn load_fixes_the_attachment_category() {
    let mut prog = SkLookup::new();
    let req = prog.load();
    assert_eq!(
        req,
        LoadRequest {
            program_type: ProgramType::SkLookup,
            expected_attach_type: AttachType::SkLookup,
        }
    );
    assert!(!prog.is_loaded());
}

#[test]
fn load_failure_leaves_the_manager_unloaded() {
    let mut prog = SkLookup::new();
    let _req = prog.load();
    assert_eq!(prog.complete_load(Err(())), Err(ProgramError::LoadError));
    assert!(!prog.is_loaded());
}

#[test]
fn attach_before_load_is_refused_at_once() {
    let prog = SkLookup::new();
    assert_eq!(prog.attach("eth0"), Err(ProgramError::ProgramNotLoaded));
    assert_eq!(
        prog.attach_resolved("eth0", 2),
        Err(ProgramError::ProgramNotLoaded)
    );
}

#[test]
fn embedded_null_is_refused_before_resolution() {
    let prog = loaded_with(5);
    assert_eq!(
        prog.attach("eth\0zero"),
        Err(ProgramError::UnknownInterface {
            name: "eth\0zero".to_string(),
        })
    );
}

#[test]
fn plain_name_passes_the_guard() {
    let prog = loaded_with(5);
    assert_eq!(prog.attach("eth0"), Ok(()));
}

#[test]
fn zero_index_means_unknown_interface() {
    let prog = loaded_with(5);
    assert_eq!(prog.attach("doesnotexist0"), Ok(()));
    assert_eq!(
        prog.attach_resolved("doesnotexist0", 0),
        Err(ProgramError::UnknownInterface {
            name: "doesnotexist0".to_string(),
        })
    );
}

#[test]
fn successful_flow_returns_the_links_descriptor() {
    let prog = loaded_with(5);
    assert_eq!(prog.attach("eth0"), Ok(()));
    let req = prog.attach_resolved("eth0", 2).unwrap();
    assert_eq!(
        req,
        LinkRequest {
            prog_fd: 5,
            target_if_index: 2,
            attach_type: AttachType::SkLookup,
            extra: None,
            flags: 0,
        }
    );
    assert_eq!(prog.attach_linked(Ok(7)), Ok(LinkHandle { fd: 7 }));
}

#[test]
fn syscall_failure_keeps_the_os_error() {
    let prog = loaded_with(5);
    assert_eq!(
        prog.attach_linked(Err(95)),
        Err(ProgramError::SyscallError {
            call: "bpf_link_create".to_string(),
            io_error: 95,
        })
    );
}

#[test]
fn two_attaches_after_one_load_are_independent() {
    let prog = loaded_with(5);

    assert_eq!(prog.attach("eth0"), Ok(()));
    let req1 = prog.attach_resolved("eth0", 2).unwrap();
    let link1 = prog.attach_linked(Ok(7)).unwrap();
    assert!(prog.is_loaded());

    assert_eq!(prog.attach("eth1"), Ok(()));
    let req2 = prog.attach_resolved("eth1", 3).unwrap();
    let link2 = prog.attach_linked(Ok(8)).unwrap();
    assert!(prog.is_loaded());

    assert_eq!(req1.prog_fd, req2.prog_fd);
    assert_ne!(req1.target_if_index, req2.target_if_index);
    assert_eq!(link1, LinkHandle { fd: 7 });
    assert_eq!(link2, LinkHandle { fd: 8 });
    assert_ne!(link1, link2);
}
