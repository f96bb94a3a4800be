//! The control plane: one manager per hook program, owning the transition from
//! unloaded to loaded and the per-interface attach flow.
//!
//! The OS is consulted twice while attaching — once to resolve an interface
//! name to its kernel index, once to create the link — and both calls live
//! outside this crate. Each decision between them is a function here: `attach`
//! guards the flow before any OS call, `attach_resolved` interprets the
//! resolution result and builds the link-creation request, and `attach_linked`
//! interprets the creation outcome. The caller performs an OS call only when
//! the preceding decision hands it work, so a flow that stops early provably
//! makes no further calls.

use vstd::prelude::*;

verus! {

/// The category of hook program this manager loads: the kernel's
/// socket-selection hook.
#[derive(Clone, Copy, Debug, PartialEq, Eq)]
pub enum ProgramType {
    SkLookup,
}

/// The attachment category fixed for this program type; set exactly once, at
/// load time, before the loader is consulted.
#[derive(Clone, Copy, Debug, PartialEq, Eq)]
pub enum AttachType {
    SkLookup,
}

/// What the external loader is asked to do: load a program of the given
/// category with the given expected attachment category.
#[derive(Clone, Copy, Debug, PartialEq, Eq)]
pub struct LoadRequest {
    pub program_type: ProgramType,
    pub expected_attach_type: AttachType,
}

/// What the link factory is asked to do: bind the loaded program, by its
/// descriptor, to the resolved interface index under the fixed attachment
/// category, with no extra options and zero flags.
#[derive(Clone, Copy, Debug, PartialEq, Eq)]
pub struct LinkRequest {
    pub prog_fd: i32,
    pub target_if_index: u32,
    pub attach_type: AttachType,
    pub extra: Option<u32>,
    pub flags: u32,
}

/// A successful attachment: an owned handle on the kernel link object. Its
/// lifetime is independent of the program's, and it carries exactly the
/// descriptor the link-creation call returned.
#[derive(Clone, Copy, Debug, PartialEq, Eq)]
pub struct LinkHandle {
    pub fd: i32,
}

/// Why a load or attach step failed.
#[derive(Debug, PartialEq, Eq)]
pub enum ProgramError {
    /// The external loader failed; the cause is opaque to this crate.
    LoadError,
    /// The interface name did not resolve, or holds an embedded null
    /// character; both earn the same error.
    UnknownInterface { name: String },
    /// Attach was attempted without a loaded program.
    ProgramNotLoaded,
    /// The OS-level link-creation call failed; the OS error code is kept
    /// verbatim for the caller's diagnostics.
    SyscallError { call: String, io_error: i32 },
}

/// The abstract shape of a failure, with its strings as character sequences:
/// the form the contracts below are stated over.
pub enum ErrorModel {
    Load,
    Unknown { name: Seq<char> },
    NotLoaded,
    Syscall { call: Seq<char>, code: i32 },
}

/// The abstraction of one concrete error.
pub open spec fn error_model(e: ProgramError) -> ErrorModel {
    match e {
        ProgramError::LoadError => ErrorModel::Load,
        ProgramError::UnknownInterface { name } => (ErrorModel::Unknown { name: name@ }),
        ProgramError::ProgramNotLoaded => ErrorModel::NotLoaded,
        ProgramError::SyscallError { call, io_error } => (ErrorModel::Syscall {
            call: call@,
            code: io_error,
        }),
    }
}

/// The abstraction of one step's result: the value as it is, the error by its
/// shape.
pub open spec fn result_model<T>(r: Result<T, ProgramError>) -> Result<T, ErrorModel> {
    match r {
        Ok(v) => Ok(v),
        Err(e) => Err(error_model(e)),
    }
}

/// The guard before OS name resolution: a program must be loaded and the name
/// must be free of embedded null characters — a null would truncate the name
/// at the OS boundary and resolve the wrong interface.
pub open spec fn guard_model(loaded: bool, name: Seq<char>) -> Result<(), ErrorModel> {
    if !loaded {
        Err(ErrorModel::NotLoaded)
    } else if name.contains('\0') {
        Err((ErrorModel::Unknown { name }))
    } else {
        Ok(())
    }
}

/// The reading of an OS resolution result: index zero means "no such
/// interface"; any other index goes verbatim into the link-creation request,
/// together with the loaded program's descriptor, the fixed attachment
/// category, no extra options, and zero flags.
pub open spec fn resolve_model(loaded: bool, prog_fd: i32, name: Seq<char>, if_index: u32) -> Result<
    LinkRequest,
    ErrorModel,
> {
    if !loaded {
        Err(ErrorModel::NotLoaded)
    } else if if_index == 0 {
        Err((ErrorModel::Unknown { name }))
    } else {
        Ok(
            (LinkRequest {
                prog_fd,
                target_if_index: if_index,
                attach_type: AttachType::SkLookup,
                extra: None,
                flags: 0,
            }),
        )
    }
}

/// The reading of a link-creation outcome: a descriptor becomes an owned
/// handle; an OS error is wrapped with the failing call's name and kept
/// verbatim.
pub open spec fn link_model(outcome: Result<i32, i32>) -> Result<LinkHandle, ErrorModel> {
    match outcome {
        Ok(fd) => Ok((LinkHandle { fd })),
        Err(code) => Err((ErrorModel::Syscall { call: "bpf_link_create"@, code })),
    }
}

/// One whole attach flow, with the environment's answers taken as given:
/// `if_index` is what OS resolution would return for the name, `outcome` what
/// link creation would return for the request. The flow consults an answer
/// only once every earlier decision has passed.
pub open spec fn attach_model(
    loaded: bool,
    prog_fd: i32,
    name: Seq<char>,
    if_index: u32,
    outcome: Result<i32, i32>,
) -> Result<LinkHandle, ErrorModel> {
    match guard_model(loaded, name) {
        Err(e) => Err(e),
        Ok(_) => match resolve_model(loaded, prog_fd, name, if_index) {
            Err(e) => Err(e),
            Ok(_) => link_model(outcome),
        },
    }
}

/// Whether the name holds an embedded null character — the one character whose
/// encoding is a zero byte, so the one that would truncate the name at the OS
/// boundary.
fn contains_null(name: &str) -> (r: bool)
    ensures
        r == name@.contains('\0'),
{
    let len: usize = name.unicode_len();
    let mut i: usize = 0;
    while i < len
        invariant
            len == name@.len(),
            i <= len,
            forall|j: int| 0 <= j < i ==> name@[j] != '\0',
        decreases len - i,
    {
        if name.get_char(i) == '\0' {
            assert(name@.contains('\0')) by {
                assert(name@[i as int] == '\0');
            }
            return true;
        }
        i += 1;
    }
    assert(!name@.contains('\0'));
    false
}

/// One socket-selection hook program: loaded into the kernel once, then
/// attached to any number of interfaces. Attaching never changes the loaded
/// status — every attach step borrows the manager immutably — and a failed
/// step leaves no link behind.
pub struct SkLookup {
    fd: Option<i32>,
    expected_attach_type: Option<AttachType>,
}

impl SkLookup {
    /// Whether a program is loaded: the manager holds a program descriptor.
    pub closed spec fn loaded(self) -> bool {
        self.fd is Some
    }

    /// The loaded program's descriptor; meaningful only when `loaded()`.
    pub closed spec fn prog_fd(self) -> i32 {
        match self.fd {
            Some(fd) => fd,
            None => 0,
        }
    }

    /// The attachment category fixed so far, if any.
    pub closed spec fn expected_attach_category(self) -> Option<AttachType> {
        self.expected_attach_type
    }

    /// A fresh manager: no program loaded, no attachment category fixed.
    pub fn new() -> (r: SkLookup)
        ensures
            !r.loaded(),
            r.expected_attach_category() == None::<AttachType>,
    {
        SkLookup { fd: None, expected_attach_type: None }
    }

    /// Whether a program is loaded.
    pub fn is_loaded(&self) -> (r: bool)
        ensures
            r == self.loaded(),
    {
        self.fd.is_some()
    }

    /// Begins loading: fixes the expected attachment category to this program
    /// type's constant — exactly once, before the loader is consulted — and
    /// returns the request the external loader is to be handed. Valid only
    /// while no program is loaded.
    pub fn load(&mut self) -> (r: LoadRequest)
        requires
            !old(self).loaded(),
        ensures
            !final(self).loaded(),
            final(self).expected_attach_category() == Some(AttachType::SkLookup),
            r == (LoadRequest {
                program_type: ProgramType::SkLookup,
                expected_attach_type: AttachType::SkLookup,
            }),
    {
        self.expected_attach_type = Some(AttachType::SkLookup);
        LoadRequest { program_type: ProgramType::SkLookup, expected_attach_type: AttachType::SkLookup }
    }

    /// Records the external loader's answer. A descriptor makes the manager
    /// loaded; a failure becomes the opaque `LoadError` and leaves the manager
    /// exactly as it was.
    pub fn complete_load(&mut self, outcome: Result<i32, ()>) -> (r: Result<(), ProgramError>)
        requires
            !old(self).loaded(),
        ensures
            match outcome {
                Ok(fd) => {
                    &&& r == Ok::<(), ProgramError>(())
                    &&& final(self).loaded()
                    &&& final(self).prog_fd() == fd
                    &&& final(self).expected_attach_category() == old(self).expected_attach_category()
                },
                Err(_) => {
                    &&& r == Err::<(), ProgramError>(ProgramError::LoadError)
                    &&& *final(self) == *old(self)
                },
            },
    {
        match outcome {
            Ok(fd) => {
                self.fd = Some(fd);
                Ok(())
            },
            Err(_) => Err(ProgramError::LoadError),
        }
    }

    /// The guard of one attach flow, before any OS call: without a loaded
    /// program the flow stops with `ProgramNotLoaded`; a name with an embedded
    /// null character stops it with `UnknownInterface`, so OS resolution is
    /// never asked for such a name. Only an `Ok` hands the caller the work of
    /// resolving the name.
    pub fn attach(&self, interface: &str) -> (r: Result<(), ProgramError>)
        ensures
            result_model(r) == guard_model(self.loaded(), interface@),
    {
        if self.fd.is_none() {
            return Err(ProgramError::ProgramNotLoaded);
        }
        if contains_null(interface) {
            return Err(ProgramError::UnknownInterface { name: interface.to_owned() });
        }
        Ok(())
    }

    /// Reads the OS resolution result for the name: index zero means the
    /// interface does not exist and earns `UnknownInterface`; any other index
    /// yields the link-creation request — the program's descriptor, the index
    /// verbatim, the fixed attachment category, no extra options, zero flags.
    pub fn attach_resolved(&self, interface: &str, if_index: u32) -> (r: Result<
        LinkRequest,
        ProgramError,
    >)
        ensures
            result_model(r) == resolve_model(self.loaded(), self.prog_fd(), interface@, if_index),
    {
        match self.fd {
            None => Err(ProgramError::ProgramNotLoaded),
            Some(prog_fd) => {
                if if_index == 0 {
                    Err(ProgramError::UnknownInterface { name: interface.to_owned() })
                } else {
                    Ok(
                        LinkRequest {
                            prog_fd,
                            target_if_index: if_index,
                            attach_type: AttachType::SkLookup,
                            extra: None,
                            flags: 0,
                        },
                    )
                }
            },
        }
    }

    /// Reads the link factory's outcome: a descriptor becomes an owned
    /// `LinkHandle`; an OS error is wrapped as `SyscallError`, naming the
    /// failing call and keeping the OS error code verbatim.
    pub fn attach_linked(&self, outcome: Result<i32, i32>) -> (r: Result<LinkHandle, ProgramError>)
        ensures
            result_model(r) == link_model(outcome),
    {
        match outcome {
            Ok(fd) => Ok(LinkHandle { fd }),
            Err(code) => Err(
                ProgramError::SyscallError { call: "bpf_link_create".to_owned(), io_error: code },
            ),
        }
    }
}

/// An interface whose OS resolution yields index zero is unknown: whatever the
/// link factory would have answered, the flow ends in `UnknownInterface` with
/// the requested name, and no link handle is produced.
pub proof fn lemma_zero_index_yields_unknown(
    prog_fd: i32,
    name: Seq<char>,
    outcome: Result<i32, i32>,
)
    ensures
        attach_model(true, prog_fd, name, 0, outcome) == Err::<LinkHandle, ErrorModel>(
            (ErrorModel::Unknown { name }),
        ),
{
}

/// A name with an embedded null character is refused by the guard of a loaded
/// manager, before any OS call: the guard itself already ends in
/// `UnknownInterface` with that name, so resolution is never invoked, and the
/// whole flow ends the same way whatever the environment would have answered.
pub proof fn lemma_embedded_null_rejected_by_guard(
    prog_fd: i32,
    name: Seq<char>,
    if_index: u32,
    outcome: Result<i32, i32>,
)
    requires
        name.contains('\0'),
    ensures
        guard_model(true, name) == Err::<(), ErrorModel>((ErrorModel::Unknown { name })),
        attach_model(true, prog_fd, name, if_index, outcome) == Err::<LinkHandle, ErrorModel>(
            (ErrorModel::Unknown { name }),
        ),
{
}

/// Without a loaded program the guard stops every attach flow at once with
/// `ProgramNotLoaded`: neither OS resolution nor link creation is ever asked
/// for, and the flow's end does not depend on what they would have answered.
pub proof fn lemma_not_loaded_stops_at_guard(
    prog_fd: i32,
    name: Seq<char>,
    if_index: u32,
    outcome: Result<i32, i32>,
)
    ensures
        guard_model(false, name) == Err::<(), ErrorModel>(ErrorModel::NotLoaded),
        attach_model(false, prog_fd, name, if_index, outcome) == Err::<LinkHandle, ErrorModel>(
            ErrorModel::NotLoaded,
        ),
{
}

/// After a successful load, attach flows are independent and repeatable: any
/// two interfaces that resolve to nonzero indices and whose link creations
/// return descriptors both succeed, and the two handles differ whenever their
/// descriptors do — which the kernel guarantees for two live links. No flow
/// changes the manager's state: every attach step borrows it immutably.
pub proof fn lemma_attaches_independent(
    prog_fd: i32,
    name1: Seq<char>,
    name2: Seq<char>,
    if_index1: u32,
    if_index2: u32,
    fd1: i32,
    fd2: i32,
)
    requires
        !name1.contains('\0'),
        !name2.contains('\0'),
        if_index1 != 0,
        if_index2 != 0,
        fd1 != fd2,
    ensures
        attach_model(true, prog_fd, name1, if_index1, Ok(fd1)) == Ok::<LinkHandle, ErrorModel>(
            (LinkHandle { fd: fd1 }),
        ),
        attach_model(true, prog_fd, name2, if_index2, Ok(fd2)) == Ok::<LinkHandle, ErrorModel>(
            (LinkHandle { fd: fd2 }),
        ),
        (LinkHandle { fd: fd1 }) != (LinkHandle { fd: fd2 }),
{
}

} // verus!
