//! The decisions of the forkserver protocol spoken with AFL++-instrumented
//! targets: the handshake, the size of the coverage map, the shape of the
//! bytes handed to the target, and what a run's wait status means.
//!
//! Pipes, processes and shared memory stay with the caller: it performs the
//! action each step returns and hands back what it read.
use vstd::prelude::*;
use crate::common::{decimal_string, decimal_string_u64, spec_decimal, spec_digits, str_eq};
use crate::error::Error;
use crate::executors::ExitKind;
use crate::mutators::token_mutations::{autodict_tokens, autodict_well_formed, spec_add_tokens, Tokens};

verus! {

/// The base the forkserver adds to its protocol version in its hello message.
pub const FS_NEW_VERSION_MAGIC_BASE: u32 = 0x41464c00;

/// The oldest protocol version understood.
pub const FS_NEW_VERSION_MIN: u32 = 1;

/// The newest protocol version understood.
pub const FS_NEW_VERSION_MAX: u32 = 1;

/// The bits that mark a hello message as an error report.
pub const FS_NEW_ERROR: u32 = 0xeffe0000;

/// Option bit: the target sends the size of its coverage map.
pub const FS_NEW_OPT_MAPSIZE: u32 = 1;

/// Option bit: the target reads its inputs from shared memory.
pub const FS_NEW_OPT_SHDMEM_FUZZ: u32 = 2;

/// Option bit: the target sends a dictionary of tokens.
pub const FS_NEW_OPT_AUTODTCT: u32 = 0x800;

/// Error report: the map size is not set and the target needs a large one.
pub const FS_ERROR_MAP_SIZE: i32 = 1;

/// Error report: mapping the shared memory at a fixed address failed.
pub const FS_ERROR_MAP_ADDR: i32 = 2;

/// Error report: `shm_open()` failed in the target.
pub const FS_ERROR_SHM_OPEN: i32 = 4;

/// Error report: `shmat()` failed in the target.
pub const FS_ERROR_SHMAT: i32 = 8;

/// Error report: `mmap()` of the shared memory failed in the target.
pub const FS_ERROR_MMAP: i32 = 16;

/// Error report: the cmplog target was built with a too old AFL++.
pub const FS_ERROR_OLD_CMPLOG: i32 = 32;

/// Error report: the QEMU/FRIDA loaders are too old.
pub const FS_ERROR_OLD_CMPLOG_QEMU: i32 = 64;

/// The largest dictionary a target may send, in bytes.
pub const AUTOTOKENS_SIZE_MAX: i32 = 0xffffff;

/// The default largest input handed to the target.
pub const MAX_INPUT_SIZE_DEFAULT: usize = 1048576;

/// The default smallest input handed to the target.
pub const MIN_INPUT_SIZE_DEFAULT: usize = 1;

/// The message given when the first status cannot be read.
pub const FAILED_TO_START_FORKSERVER_MSG: &'static str = "Failed to start forkserver";

/// The variable telling the target the size of its coverage map.
pub const AFL_MAP_SIZE_ENV_VAR: &'static str = "AFL_MAP_SIZE";

/// The variable telling a GCC-instrumented target to run only the forkserver.
pub const AFL_GCC_ONLY_FSRV_VAR: &'static str = "AFL_GCC_ONLY_FRKSRV";

/// The variable telling an LLVM-instrumented target to run only the forkserver.
pub const AFL_LLVM_ONLY_FSRV_VAR: &'static str = "AFL_LLVM_ONLY_FORKSERVER";

/// Whether all bits of `flag` are set in `status`.
pub open spec fn spec_has_flag(status: i32, flag: u32) -> bool {
    (status as u32) & flag == flag
}

/// Whether some bit of `flag` is set in `status`.
pub open spec fn spec_has_any(status: i32, flag: u32) -> bool {
    (status as u32) & flag != 0
}

/// Whether a hello message reports an error instead of a version.
pub open spec fn spec_is_error_report(status: i32) -> bool {
    spec_has_flag(status, FS_NEW_ERROR)
}

/// The error code carried by an error report.
pub open spec fn spec_error_code(status: i32) -> i32 {
    status & 0xffff
}

/// The protocol version announced by a hello message (modulo 2^32, as the target computes it).
pub open spec fn spec_version(status: i32) -> u32 {
    ((status as u32) as int - FS_NEW_VERSION_MAGIC_BASE as int) as u32
}

/// The reply to a hello message: its bits inverted.
pub open spec fn spec_hello_reply(status: i32) -> i32 {
    ((status as u32) ^ 0xffffffffu32) as i32
}

/// The message of the error the target reports with `code`.
pub open spec fn spec_error_report_message(code: i32) -> Seq<char> {
    if code == FS_ERROR_MAP_SIZE {
        "AFL_MAP_SIZE is not set and fuzzing target reports that the required size is very large. Solution: Run the fuzzing target stand-alone with the environment variable AFL_DEBUG=1 set and set the value for __afl_final_loc in the AFL_MAP_SIZE environment variable for afl-fuzz."@
    } else if code == FS_ERROR_MAP_ADDR {
        "the fuzzing target reports that hardcoded map address might be the reason the mmap of the shared memory failed. Solution: recompile the target with either afl-clang-lto and do not set AFL_LLVM_MAP_ADDR or recompile with afl-clang-fast."@
    } else if code == FS_ERROR_SHM_OPEN {
        "the fuzzing target reports that the shm_open() call failed."@
    } else if code == FS_ERROR_SHMAT {
        "the fuzzing target reports that the shmat() call failed."@
    } else if code == FS_ERROR_MMAP {
        "the fuzzing target reports that the mmap() call to the shared memory failed."@
    } else if code == FS_ERROR_OLD_CMPLOG {
        "the -c cmplog target was instrumented with an too old AFL++ version, you need to recompile it."@
    } else if code == FS_ERROR_OLD_CMPLOG_QEMU {
        "The AFL++ QEMU/FRIDA loaders are from an older version, for -c you need to recompile it."@
    } else {
        "unknown error code "@ + spec_decimal(code as int) + " from fuzzing target!"@
    }
}

/// Turns the error code the target reports into the error of the library.
/// Always an error: the run cannot go on.
pub fn report_error_and_exit(status: i32) -> (r: Result<(), Error>)
    ensures
        (r matches Err(Error::Unknown(m)) && m@ == spec_error_report_message(status)),
{
    let msg: String = if status == FS_ERROR_MAP_SIZE {
        "AFL_MAP_SIZE is not set and fuzzing target reports that the required size is very large. Solution: Run the fuzzing target stand-alone with the environment variable AFL_DEBUG=1 set and set the value for __afl_final_loc in the AFL_MAP_SIZE environment variable for afl-fuzz.".to_string()
    } else if status == FS_ERROR_MAP_ADDR {
        "the fuzzing target reports that hardcoded map address might be the reason the mmap of the shared memory failed. Solution: recompile the target with either afl-clang-lto and do not set AFL_LLVM_MAP_ADDR or recompile with afl-clang-fast.".to_string()
    } else if status == FS_ERROR_SHM_OPEN {
        "the fuzzing target reports that the shm_open() call failed.".to_string()
    } else if status == FS_ERROR_SHMAT {
        "the fuzzing target reports that the shmat() call failed.".to_string()
    } else if status == FS_ERROR_MMAP {
        "the fuzzing target reports that the mmap() call to the shared memory failed.".to_string()
    } else if status == FS_ERROR_OLD_CMPLOG {
        "the -c cmplog target was instrumented with an too old AFL++ version, you need to recompile it.".to_string()
    } else if status == FS_ERROR_OLD_CMPLOG_QEMU {
        "The AFL++ QEMU/FRIDA loaders are from an older version, for -c you need to recompile it.".to_string()
    } else {
        let mut m = "unknown error code ".to_string();
        let d = decimal_string(status as i64);
        m.append(d.as_str());
        m.append(" from fuzzing target!");
        m
    };
    Err(Error::Unknown(msg))
}

/// The size of the coverage map the target reports, rounded up to a multiple of 64.
pub open spec fn spec_rounded_map_size(reported: int) -> int {
    if reported % 64 == 0 {
        reported
    } else {
        ((reported + 63) / 64) * 64
    }
}

/// The size a reported map size is rounded to is a multiple of 64, at
/// least the reported size, and less than 64 above it.
pub proof fn lemma_rounded_map_size(reported: int)
    ensures
        spec_rounded_map_size(reported) % 64 == 0,
        reported <= spec_rounded_map_size(reported) < reported + 64,
{
    if reported % 64 != 0 {
        assert(((reported + 63) / 64) * 64 <= reported + 63) by (nonlinear_arith);
        assert(((reported + 63) / 64) * 64 > reported + 63 - 64) by (nonlinear_arith);
        assert((((reported + 63) / 64) * 64) % 64 == 0) by (nonlinear_arith);
    }
}

/// What comes of a map size the target reports, given the size of the map
/// allocated before the target was started: the rounded size as `usize`, an
/// error when no map was allocated, or when the map is too small.
pub open spec fn spec_map_size_result(reported: int, allocated: Option<usize>) -> Result<
    usize,
    (),
> {
    let actual = spec_rounded_map_size(reported) as usize;
    match allocated {
        Some(max) => if actual > max {
            Err(())
        } else {
            Ok(actual)
        },
        None => Err(()),
    }
}

/// Checks the map size the target reports against the allocated map, and
/// gives the size to use: the reported size rounded up to a multiple of 64.
/// The rounding is done in 32 bits, so the reported size must leave room for it.
pub fn checked_map_size(fsrv_map_size: i32, allocated: Option<usize>) -> (r: Result<usize, Error>)
    requires
        fsrv_map_size <= i32::MAX - 63,
    ensures
        match spec_map_size_result(fsrv_map_size as int, allocated) {
            Ok(v) => r == Ok::<usize, Error>(v),
            Err(_) => (r matches Err(Error::IllegalState(_))),
        },
{
    let mut actual_map_size: i32 = fsrv_map_size;
    if actual_map_size % 64 != 0 {
        let sum: i32 = actual_map_size + 63;
        actual_map_size = (sum >> 6u32) << 6u32;
        proof {
            assert(sum >> 6u32 == sum / 64) by (bit_vector)
                requires
                    sum <= 0x7fffffffi32,
            ;
            assert((sum / 64) * 64 == (sum >> 6u32) << 6u32) by (bit_vector)
                requires
                    sum <= 0x7fffffffi32,
            ;
        }
    }
    proof {
        assert(fsrv_map_size % 64 == 0 <==> (fsrv_map_size as int) % 64 == 0);
    }
    let actual: usize = actual_map_size as usize;
    match allocated {
        Some(max_size) => {
            if actual > max_size {
                let mut m = "The target map size is ".to_string();
                m.append(decimal_string(actual_map_size as i64).as_str());
                m.append(" but the allocated map size is smaller; increase the initial size of the forkserver map using the builder's coverage_map_size.");
                Err(Error::IllegalState(m))
            } else {
                Ok(actual)
            }
        },
        None => {
            let mut m = "The target map size is ".to_string();
            m.append(decimal_string(actual_map_size as i64).as_str());
            m.append(" but no coverage map was created before launching the target; set an initial forkserver map size using the builder's coverage_map_size.");
            Err(Error::IllegalState(m))
        },
    }
}

/// Where the handshake with the forkserver stands: what it waits for next.
#[derive(Debug, Clone, Copy, PartialEq, Eq, Structural)]
pub enum HandshakeStage {
    /// The hello message, carrying the protocol version.
    Hello,
    /// The options the target asks for.
    Options,
    /// The size of the target's coverage map.
    MapSize,
    /// The size of the dictionary the target sends.
    AutotokensSize,
    /// The dictionary itself, of the given number of bytes.
    Autotokens(usize),
    /// The hello message again, which closes the handshake.
    Confirm,
    /// The handshake is over.
    Done,
}

/// What the caller does next for the handshake.
#[derive(Debug, Clone, Copy, PartialEq, Eq, Structural)]
pub enum HandshakeAction {
    /// Write this value to the control pipe, then read the next status.
    WriteCtl(i32),
    /// Read the next status from the status pipe.
    ReadStatus,
    /// Read this many bytes from the status pipe.
    ReadBytes(usize),
    /// Nothing: the forkserver is ready.
    Finished,
}

/// The state of the handshake with a forkserver (protocol version 1 and later).
#[derive(Debug)]
pub struct Handshake {
    stage: HandshakeStage,
    initial_status: i32,
    options: i32,
    input_map_allocated: bool,
    map_size: Option<usize>,
    uses_shmem_testcase: bool,
    autotokens: Option<Tokens>,
}

/// The stage after the map size is settled: the shared memory check, then the
/// dictionary if the target announced one, else the closing hello.
pub open spec fn spec_stage_after_map_size(options: i32) -> HandshakeStage {
    if spec_has_any(options, FS_NEW_OPT_AUTODTCT) {
        HandshakeStage::AutotokensSize
    } else {
        HandshakeStage::Confirm
    }
}

impl Handshake {
    /// The stage.
    pub closed spec fn spec_stage(&self) -> HandshakeStage {
        self.stage
    }

    /// The hello message the target sent first.
    pub closed spec fn spec_initial_status(&self) -> i32 {
        self.initial_status
    }

    /// The options the target announced.
    pub closed spec fn spec_options(&self) -> i32 {
        self.options
    }

    /// Whether a map for shared-memory inputs was allocated.
    pub closed spec fn spec_input_map_allocated(&self) -> bool {
        self.input_map_allocated
    }

    /// The size of the coverage map.
    pub closed spec fn spec_map_size(&self) -> Option<usize> {
        self.map_size
    }

    /// Whether inputs go through shared memory.
    pub closed spec fn spec_uses_shmem_testcase(&self) -> bool {
        self.uses_shmem_testcase
    }

    /// The dictionary the target's tokens are added to, if any.
    pub closed spec fn spec_autotokens(&self) -> Option<Seq<Seq<u8>>> {
        match self.autotokens {
            Some(t) => Some(t.spec_tokens()),
            None => None,
        }
    }

    /// Shared memory is only used for inputs when a map for them was allocated.
    #[verifier::type_invariant]
    closed spec fn inv(&self) -> bool {
        self.uses_shmem_testcase ==> self.input_map_allocated
    }

    /// A handshake waiting for the hello message. `map_size` is the size of the
    /// coverage map allocated beforehand, `autotokens` the dictionary the
    /// target's tokens go to.
    pub fn new(input_map_allocated: bool, map_size: Option<usize>, autotokens: Option<Tokens>) -> (r: Self)
        ensures
            r.spec_stage() == HandshakeStage::Hello,
            r.spec_input_map_allocated() == input_map_allocated,
            r.spec_map_size() == map_size,
            !r.spec_uses_shmem_testcase(),
            r.spec_autotokens() == (match autotokens {
                Some(t) => Some(t.spec_tokens()),
                None => None::<Seq<Seq<u8>>>,
            }),
    {
        Handshake {
            stage: HandshakeStage::Hello,
            initial_status: 0,
            options: 0,
            input_map_allocated,
            map_size,
            uses_shmem_testcase: false,
            autotokens,
        }
    }

    /// The stage.
    pub fn stage(&self) -> (r: HandshakeStage)
        ensures
            r == self.spec_stage(),
    {
        self.stage
    }

    /// The size of the coverage map, as the target settled it.
    pub fn map_size(&self) -> (r: Option<usize>)
        ensures
            r == self.spec_map_size(),
    {
        self.map_size
    }

    /// Whether inputs go through shared memory.
    pub fn uses_shmem_testcase(&self) -> (r: bool)
        ensures
            r == self.spec_uses_shmem_testcase(),
            r ==> self.spec_input_map_allocated(),
    {
        proof {
            use_type_invariant(self);
        }
        self.uses_shmem_testcase
    }

    /// Gives the dictionary back.
    pub fn take_autotokens(self) -> (r: Option<Tokens>)
        ensures
            match r {
                Some(t) => self.spec_autotokens() == Some(t.spec_tokens()),
                None => self.spec_autotokens() is None,
            },
    {
        self.autotokens
    }

    /// Whether the status can be handed to [`Self::on_status`]: the stage waits
    /// for a status, and a reported map size leaves room for rounding it up.
    pub open spec fn spec_accepts_status(&self, status: i32) -> bool {
        match self.spec_stage() {
            HandshakeStage::Autotokens(_) | HandshakeStage::Done => false,
            HandshakeStage::MapSize => status <= i32::MAX - 63,
            _ => true,
        }
    }

    /// Whether [`Self::on_status`] may be called with `status`.
    pub fn accepts_status(&self, status: i32) -> (r: bool)
        ensures
            r == self.spec_accepts_status(status),
    {
        match self.stage {
            HandshakeStage::Autotokens(_) | HandshakeStage::Done => false,
            HandshakeStage::MapSize => status <= i32::MAX - 63,
            _ => true,
        }
    }

    /// Whether `bytes` can be handed to [`Self::on_autotokens`]: the stage waits
    /// for that many bytes, and they form a well-formed dictionary whenever
    /// there is a dictionary to add them to.
    pub open spec fn spec_accepts_bytes(&self, bytes: Seq<u8>) -> bool {
        match self.spec_stage() {
            HandshakeStage::Autotokens(n) => bytes.len() == n && (self.spec_autotokens() is Some
                ==> autodict_well_formed(bytes, 0, n as int)),
            _ => false,
        }
    }

    /// Whether [`Self::on_autotokens`] may be called with `bytes`.
    pub fn accepts_bytes(&self, bytes: &[u8]) -> (r: bool)
        ensures
            r == self.spec_accepts_bytes(bytes@),
    {
        match self.stage {
            HandshakeStage::Autotokens(n) => {
                if bytes.len() != n {
                    false
                } else {
                    match &self.autotokens {
                        Some(_) => crate::mutators::token_mutations::autodict_is_well_formed(
                            bytes,
                            n,
                        ),
                        None => true,
                    }
                }
            },
            _ => false,
        }
    }

    /// Settles what follows the map size: checks the shared memory request,
    /// then waits for the dictionary or for the closing hello.
    fn after_map_size(&mut self) -> (r: Result<HandshakeAction, Error>)
        requires
            old(self).spec_stage() == HandshakeStage::MapSize || old(self).spec_stage()
                == HandshakeStage::Options,
        ensures
            final(self).spec_initial_status() == old(self).spec_initial_status(),
            final(self).spec_options() == old(self).spec_options(),
            final(self).spec_input_map_allocated() == old(self).spec_input_map_allocated(),
            final(self).spec_map_size() == old(self).spec_map_size(),
            final(self).spec_autotokens() == old(self).spec_autotokens(),
            spec_has_any(old(self).spec_options(), FS_NEW_OPT_SHDMEM_FUZZ)
                && !old(self).spec_input_map_allocated() ==> (r matches Err(
                Error::IllegalState(_),
            )) && final(self).spec_stage() == HandshakeStage::Done,
            !(spec_has_any(old(self).spec_options(), FS_NEW_OPT_SHDMEM_FUZZ)
                && !old(self).spec_input_map_allocated()) ==> {
                &&& r == Ok::<HandshakeAction, Error>(HandshakeAction::ReadStatus)
                &&& final(self).spec_stage() == spec_stage_after_map_size(
                    old(self).spec_options(),
                )
                &&& final(self).spec_uses_shmem_testcase() == (old(
                    self,
                ).spec_uses_shmem_testcase() || spec_has_any(
                    old(self).spec_options(),
                    FS_NEW_OPT_SHDMEM_FUZZ,
                ))
            },
    {
        proof {
            use_type_invariant(&*self);
        }
        let opts: u32 = self.options as u32;
        if opts & FS_NEW_OPT_SHDMEM_FUZZ != 0 {
            if self.input_map_allocated {
                self.uses_shmem_testcase = true;
            } else {
                self.stage = HandshakeStage::Done;
                return Err(
                    Error::IllegalState(
                        "Target requested sharedmem fuzzing, but you didn't prepare shmem".to_string(),
                    ),
                );
            }
        }
        if opts & FS_NEW_OPT_AUTODTCT != 0 {
            self.stage = HandshakeStage::AutotokensSize;
        } else {
            self.stage = HandshakeStage::Confirm;
        }
        Ok(HandshakeAction::ReadStatus)
    }

    /// Takes the next status the forkserver sent and says what to do next.
    /// Every error ends the handshake.
    pub fn on_status(&mut self, status: i32) -> (r: Result<HandshakeAction, Error>)
        requires
            old(self).spec_accepts_status(status),
        ensures
            final(self).spec_input_map_allocated() == old(self).spec_input_map_allocated(),
            final(self).spec_autotokens() == old(self).spec_autotokens(),
            r is Err ==> final(self).spec_stage() == HandshakeStage::Done,
            old(self).spec_stage() == HandshakeStage::Hello ==> {
                &&& spec_is_error_report(status) ==> (r matches Err(Error::Unknown(m)) && m@
                    == spec_error_report_message(spec_error_code(status)))
                &&& !spec_is_error_report(status) && spec_version(status) == 0 ==> (r matches Err(
                    Error::IllegalState(_),
                ))
                &&& !spec_is_error_report(status) && spec_version(status) != 0 && !(
                FS_NEW_VERSION_MIN <= spec_version(status) <= FS_NEW_VERSION_MAX) ==> (r matches Err(
                    Error::IllegalState(_),
                ))
                &&& !spec_is_error_report(status) && FS_NEW_VERSION_MIN <= spec_version(status)
                    <= FS_NEW_VERSION_MAX ==> r == Ok::<HandshakeAction, Error>(
                    HandshakeAction::WriteCtl(spec_hello_reply(status)),
                ) && final(self).spec_stage() == HandshakeStage::Options
                    && final(self).spec_initial_status() == status
                    && final(self).spec_map_size() == old(self).spec_map_size()
                    && final(self).spec_uses_shmem_testcase() == old(
                    self,
                ).spec_uses_shmem_testcase()
            },
            old(self).spec_stage() == HandshakeStage::Options ==> {
                &&& final(self).spec_options() == status
                &&& final(self).spec_initial_status() == old(self).spec_initial_status()
                &&& final(self).spec_map_size() == old(self).spec_map_size()
                &&& spec_has_flag(status, FS_NEW_OPT_MAPSIZE) ==> r == Ok::<
                    HandshakeAction,
                    Error,
                >(HandshakeAction::ReadStatus) && final(self).spec_stage()
                    == HandshakeStage::MapSize && final(self).spec_uses_shmem_testcase() == old(
                    self,
                ).spec_uses_shmem_testcase()
                &&& !spec_has_flag(status, FS_NEW_OPT_MAPSIZE) ==> (if spec_has_any(
                    status,
                    FS_NEW_OPT_SHDMEM_FUZZ,
                ) && !old(self).spec_input_map_allocated() {
                    (r matches Err(Error::IllegalState(_)))
                } else {
                    r == Ok::<HandshakeAction, Error>(HandshakeAction::ReadStatus)
                        && final(self).spec_stage() == spec_stage_after_map_size(status)
                        && final(self).spec_uses_shmem_testcase() == (old(
                        self,
                    ).spec_uses_shmem_testcase() || spec_has_any(status, FS_NEW_OPT_SHDMEM_FUZZ))
                })
            },
            old(self).spec_stage() == HandshakeStage::MapSize ==> {
                &&& final(self).spec_initial_status() == old(self).spec_initial_status()
                &&& final(self).spec_options() == old(self).spec_options()
                &&& spec_map_size_result(status as int, old(self).spec_map_size()) is Err ==> (r matches Err(
                    Error::IllegalState(_),
                ))
                &&& spec_map_size_result(status as int, old(self).spec_map_size()) matches Ok(
                    size,
                ) ==> final(self).spec_map_size() == Some(size) && (if spec_has_any(
                    old(self).spec_options(),
                    FS_NEW_OPT_SHDMEM_FUZZ,
                ) && !old(self).spec_input_map_allocated() {
                    (r matches Err(Error::IllegalState(_)))
                } else {
                    r == Ok::<HandshakeAction, Error>(HandshakeAction::ReadStatus)
                        && final(self).spec_stage() == spec_stage_after_map_size(
                        old(self).spec_options(),
                    ) && final(self).spec_uses_shmem_testcase() == (old(
                        self,
                    ).spec_uses_shmem_testcase() || spec_has_any(
                        old(self).spec_options(),
                        FS_NEW_OPT_SHDMEM_FUZZ,
                    ))
                })
            },
            old(self).spec_stage() == HandshakeStage::AutotokensSize ==> {
                &&& final(self).spec_initial_status() == old(self).spec_initial_status()
                &&& final(self).spec_map_size() == old(self).spec_map_size()
                &&& final(self).spec_uses_shmem_testcase() == old(self).spec_uses_shmem_testcase()
                &&& 2 <= status <= AUTOTOKENS_SIZE_MAX ==> r == Ok::<HandshakeAction, Error>(
                    HandshakeAction::ReadBytes(status as usize),
                ) && final(self).spec_stage() == HandshakeStage::Autotokens(status as usize)
                &&& !(2 <= status <= AUTOTOKENS_SIZE_MAX) ==> (r matches Err(
                    Error::IllegalState(_),
                ))
            },
            old(self).spec_stage() == HandshakeStage::Confirm ==> {
                &&& final(self).spec_map_size() == old(self).spec_map_size()
                &&& final(self).spec_uses_shmem_testcase() == old(self).spec_uses_shmem_testcase()
                &&& status == old(self).spec_initial_status() ==> r == Ok::<
                    HandshakeAction,
                    Error,
                >(HandshakeAction::Finished) && final(self).spec_stage() == HandshakeStage::Done
                &&& status != old(self).spec_initial_status() ==> (r matches Err(
                    Error::Runtime(_),
                ))
            },
    {
        proof {
            use_type_invariant(&*self);
        }
        match self.stage {
            HandshakeStage::Hello => {
                let s: u32 = status as u32;
                if s & FS_NEW_ERROR == FS_NEW_ERROR {
                    self.stage = HandshakeStage::Done;
                    return match report_error_and_exit(status & 0xffff) {
                        Ok(()) => Ok(HandshakeAction::Finished),
                        Err(e) => Err(e),
                    };
                }
                let version: u32 = s.wrapping_sub(FS_NEW_VERSION_MAGIC_BASE);
                proof {
                    assert(version == spec_version(status)) by (bit_vector)
                        requires
                            version == s.wrapping_sub(FS_NEW_VERSION_MAGIC_BASE),
                            s == status as u32,
                    ;
                }
                if version == 0 {
                    self.stage = HandshakeStage::Done;
                    return Err(
                        Error::IllegalState(
                            "Fork server version is not assigned, this should not happen. Recompile target.".to_string(),
                        ),
                    );
                }
                if version < FS_NEW_VERSION_MIN || version > FS_NEW_VERSION_MAX {
                    self.stage = HandshakeStage::Done;
                    return Err(
                        Error::IllegalState(
                            "Fork server version is not supported. Recompile the target.".to_string(),
                        ),
                    );
                }
                self.initial_status = status;
                self.stage = HandshakeStage::Options;
                Ok(HandshakeAction::WriteCtl((s ^ 0xffffffffu32) as i32))
            },
            HandshakeStage::Options => {
                self.options = status;
                let s: u32 = status as u32;
                if s & FS_NEW_OPT_MAPSIZE == FS_NEW_OPT_MAPSIZE {
                    self.stage = HandshakeStage::MapSize;
                    Ok(HandshakeAction::ReadStatus)
                } else {
                    self.after_map_size()
                }
            },
            HandshakeStage::MapSize => {
                match checked_map_size(status, self.map_size) {
                    Ok(size) => {
                        self.map_size = Some(size);
                        self.after_map_size()
                    },
                    Err(e) => {
                        self.stage = HandshakeStage::Done;
                        Err(e)
                    },
                }
            },
            HandshakeStage::AutotokensSize => {
                if status < 2 || status > AUTOTOKENS_SIZE_MAX {
                    self.stage = HandshakeStage::Done;
                    let mut m = "Autotokens size is incorrect, expected 2 to 16777215 (inclusive), but got ".to_string();
                    m.append(decimal_string(status as i64).as_str());
                    m.append(". Make sure your afl-cc verison is up to date.");
                    return Err(Error::IllegalState(m));
                }
                let n: usize = status as usize;
                self.stage = HandshakeStage::Autotokens(n);
                Ok(HandshakeAction::ReadBytes(n))
            },
            HandshakeStage::Confirm => {
                if status != self.initial_status {
                    self.stage = HandshakeStage::Done;
                    let mut m = "Error in forkserver communication (".to_string();
                    m.append(decimal_string(status as i64).as_str());
                    m.append("=>");
                    m.append(decimal_string(self.initial_status as i64).as_str());
                    m.append(")");
                    return Err(Error::Runtime(m));
                }
                self.stage = HandshakeStage::Done;
                Ok(HandshakeAction::Finished)
            },
            _ => Ok(HandshakeAction::Finished),
        }
    }

    /// Takes the dictionary the forkserver sent: its tokens are added to the
    /// dictionary given at the start, if any; then waits for the closing hello.
    pub fn on_autotokens(&mut self, bytes: &[u8]) -> (r: HandshakeAction)
        requires
            old(self).spec_accepts_bytes(bytes@),
        ensures
            r == HandshakeAction::ReadStatus,
            final(self).spec_stage() == HandshakeStage::Confirm,
            final(self).spec_initial_status() == old(self).spec_initial_status(),
            final(self).spec_options() == old(self).spec_options(),
            final(self).spec_input_map_allocated() == old(self).spec_input_map_allocated(),
            final(self).spec_map_size() == old(self).spec_map_size(),
            final(self).spec_uses_shmem_testcase() == old(self).spec_uses_shmem_testcase(),
            final(self).spec_autotokens() == match old(self).spec_autotokens() {
                Some(t) => Some(spec_add_tokens(t, autodict_tokens(bytes@, 0, bytes@.len() as int))),
                None => None::<Seq<Seq<u8>>>,
            },
    {
        proof {
            use_type_invariant(&*self);
        }
        let n: usize = bytes.len();
        let mut taken: Option<Tokens> = None;
        std::mem::swap(&mut taken, &mut self.autotokens);
        let parsed: Option<Tokens> = match taken {
            Some(mut t) => {
                t.parse_autodict(bytes, n);
                Some(t)
            },
            None => None,
        };
        self.autotokens = parsed;
        self.stage = HandshakeStage::Confirm;
        HandshakeAction::ReadStatus
    }
}

/// The bytes handed to the target for an input: cut to `max` bytes when
/// longer, padded with zeros up to `min` bytes when shorter.
pub open spec fn spec_target_bytes(input: Seq<u8>, min: usize, max: usize) -> Seq<u8> {
    if input.len() > max {
        input.take(max as int)
    } else if input.len() < min {
        input + Seq::new((min - input.len()) as nat, |i: int| 0u8)
    } else {
        input
    }
}

/// The target gets as many bytes as the input has, but no more than the
/// largest size, and no fewer than the smallest one when that is below the largest.
pub proof fn lemma_target_bytes_len(input: Seq<u8>, min: usize, max: usize)
    ensures
        spec_target_bytes(input, min, max).len() == if input.len() > max {
            max as int
        } else if input.len() < min {
            min as int
        } else {
            input.len() as int
        },
        input.len() <= max ==> spec_target_bytes(input, min, max).take(input.len() as int) == input,
{
    if input.len() <= max {
        assert(spec_target_bytes(input, min, max).take(input.len() as int) =~= input);
    }
}

/// Shapes an input as the target gets it: truncated to `max_input_size`
/// bytes, or zero-padded to `min_input_size` bytes.
pub fn target_bytes(input: &[u8], min_input_size: usize, max_input_size: usize) -> (r: Vec<u8>)
    ensures
        r@ == spec_target_bytes(input@, min_input_size, max_input_size),
{
    let len = input.len();
    let end: usize = if len > max_input_size {
        max_input_size
    } else {
        len
    };
    let mut out: Vec<u8> = Vec::new();
    let mut i: usize = 0;
    while i < end
        invariant
            end <= input@.len(),
            0 <= i <= end,
            out@ == input@.take(i as int),
        decreases end - i,
    {
        out.push(input[i]);
        i = i + 1;
        assert(out@ =~= input@.take(i as int));
    }
    if len <= max_input_size {
        assert(input@.take(len as int) =~= input@);
        assert(forall|k: int| 0 <= k < len ==> #[trigger] out@[k] == input@[k]);
        while out.len() < min_input_size
            invariant
                len == input@.len(),
                len <= out@.len(),
                out@.len() <= if len < min_input_size {
                    min_input_size as int
                } else {
                    len as int
                },
                forall|k: int| 0 <= k < len ==> #[trigger] out@[k] == input@[k],
                forall|k: int| len <= k < out@.len() ==> #[trigger] out@[k] == 0u8,
            decreases min_input_size - out@.len(),
        {
            out.push(0u8);
        }
        proof {
            if len < min_input_size {
                assert(out@ =~= input@ + Seq::new((min_input_size - len) as nat, |i: int| 0u8));
            } else {
                assert(out@ =~= input@);
            }
        }
    }
    out
}

/// The views of a list of environment variables.
pub open spec fn spec_env_views(envs: Seq<(String, String)>) -> Seq<(Seq<char>, Seq<char>)> {
    envs.map_values(|p: (String, String)| (p.0@, p.1@))
}

/// The variables the target's environment gets, in order, for a coverage
/// map of `map_size` entries: the map size in decimal; the persistent,
/// deferred and forkserver-only switches where asked for; and immediate
/// binding of the target's symbols.
pub open spec fn spec_target_envs(
    map_size: usize,
    is_persistent: bool,
    is_deferred_frksrv: bool,
    is_fsrv_only: bool,
) -> Seq<(Seq<char>, Seq<char>)> {
    seq![(AFL_MAP_SIZE_ENV_VAR@, spec_digits(map_size as nat))] + (if is_persistent {
        seq![("__AFL_PERSISTENT"@, "1"@)]
    } else {
        Seq::empty()
    }) + (if is_deferred_frksrv {
        seq![("__AFL_DEFER_FORKSRV"@, "1"@)]
    } else {
        Seq::empty()
    }) + (if is_fsrv_only {
        seq![(AFL_GCC_ONLY_FSRV_VAR@, "1"@), (AFL_LLVM_ONLY_FSRV_VAR@, "1"@)]
    } else {
        Seq::empty()
    }) + seq![("LD_BIND_NOW"@, "1"@)]
}

/// The variables to set in the target's environment, before the user's own;
/// refused when the size of the coverage map is not known.
pub fn target_envs(
    coverage_map_size: Option<usize>,
    is_persistent: bool,
    is_deferred_frksrv: bool,
    is_fsrv_only: bool,
) -> (r: Result<Vec<(String, String)>, Error>)
    ensures
        match coverage_map_size {
            None => r matches Err(Error::Unknown(m)) && m@
                == "Coverage map size unknown. Use coverage_map_size() to tell the forkserver about the map size."@,
            Some(n) => r matches Ok(v) && spec_env_views(v@) == spec_target_envs(
                n,
                is_persistent,
                is_deferred_frksrv,
                is_fsrv_only,
            ),
        },
{
    let map_size = match coverage_map_size {
        Some(n) => n,
        None => {
            return Err(
                Error::Unknown(
                    "Coverage map size unknown. Use coverage_map_size() to tell the forkserver about the map size.".to_string(),
                ),
            );
        },
    };
    let mut envs: Vec<(String, String)> = Vec::new();
    envs.push((AFL_MAP_SIZE_ENV_VAR.to_string(), decimal_string_u64(map_size as u64)));
    if is_persistent {
        envs.push(("__AFL_PERSISTENT".to_string(), "1".to_string()));
    }
    if is_deferred_frksrv {
        envs.push(("__AFL_DEFER_FORKSRV".to_string(), "1".to_string()));
    }
    if is_fsrv_only {
        envs.push((AFL_GCC_ONLY_FSRV_VAR.to_string(), "1".to_string()));
        envs.push((AFL_LLVM_ONLY_FSRV_VAR.to_string(), "1".to_string()));
    }
    envs.push(("LD_BIND_NOW".to_string(), "1".to_string()));
    assert(spec_env_views(envs@) =~= spec_target_envs(
        map_size,
        is_persistent,
        is_deferred_frksrv,
        is_fsrv_only,
    ));
    Ok(envs)
}

/// The variable holding the id of the shared memory of the coverage map.
pub const SHM_ENV_VAR: &'static str = "__AFL_SHM_ID";

/// Refuses to start the forkserver when the id of the coverage map's shared
/// memory, the value of [`SHM_ENV_VAR`], is not set: the target could not
/// report its coverage.
pub fn check_shm_env(value: Option<&str>) -> (r: Result<(), Error>)
    ensures
        value is Some ==> r is Ok,
        value is None ==> (r matches Err(Error::Unknown(m)) && m@
            == "__AFL_SHM_ID not set. It is necessary to set this env, otherwise the forkserver cannot communicate with the fuzzer"@),
{
    match value {
        Some(_) => Ok(()),
        None => Err(
            Error::Unknown(
                "__AFL_SHM_ID not set. It is necessary to set this env, otherwise the forkserver cannot communicate with the fuzzer".to_string(),
            ),
        ),
    }
}

/// Refuses an input handed to the target as a command-line argument: the
/// forkserver hands it over stdin or in a file.
pub fn check_input_location(arg_input: bool) -> (r: Result<(), Error>)
    ensures
        !arg_input ==> r is Ok,
        arg_input ==> (r matches Err(Error::IllegalArgument(m)) && m@
            == "forkserver doesn't support argument mutation"@),
{
    if arg_input {
        Err(Error::IllegalArgument("forkserver doesn't support argument mutation".to_string()))
    } else {
        Ok(())
    }
}

/// The program the forkserver runs; refused when none was set.
pub fn target_program(program: Option<String>) -> (r: Result<String, Error>)
    ensures
        match program {
            Some(p) => r == Ok::<String, Error>(p),
            None => r matches Err(Error::IllegalArgument(m)) && m@
                == "ForkserverExecutorBuilder::build: target file not found"@,
        },
{
    match program {
        Some(p) => Ok(p),
        None => Err(
            Error::IllegalArgument(
                "ForkserverExecutorBuilder::build: target file not found".to_string(),
            ),
        ),
    }
}

/// Whether the target may dump core, from the value of `AFL_DEBUG`: only
/// `1` allows it, `0` or no value forbids it, and any other value is refused.
pub fn afl_debug_setting(value: Option<&str>) -> (r: Result<bool, Error>)
    ensures
        match value {
            None => r == Ok::<bool, Error>(false),
            Some(v) => if v@ == "1"@ {
                r == Ok::<bool, Error>(true)
            } else if v@ == "0"@ {
                r == Ok::<bool, Error>(false)
            } else {
                r matches Err(Error::IllegalArgument(m)) && m@ == "AFL_DEBUG must be either 1 or 0"@
            },
        },
{
    match value {
        None => Ok(false),
        Some(v) => {
            if str_eq(v, "1") {
                Ok(true)
            } else if str_eq(v, "0") {
                Ok(false)
            } else {
                Err(Error::IllegalArgument("AFL_DEBUG must be either 1 or 0".to_string()))
            }
        },
    }
}

/// The limit on the target's address space, in bytes, for a limit of
/// `memlimit` MiB: none for 0; bits shifted past the top are lost.
pub fn memlimit_bytes(memlimit: u64) -> (r: Option<u64>)
    ensures
        memlimit == 0 ==> r is None,
        memlimit != 0 ==> r == Some(((memlimit as int * 0x100000) % 0x1_0000_0000_0000_0000) as u64),
{
    if memlimit == 0 {
        return None;
    }
    let bytes = memlimit << 20u64;
    assert(bytes == ((memlimit as int * 0x100000) % 0x1_0000_0000_0000_0000) as u64) by (bit_vector)
        requires
            bytes == memlimit << 20u64,
    ;
    Some(bytes)
}

/// Whether a wait status says the process was killed by a signal (as `WIFSIGNALED` does on Linux).
pub open spec fn spec_wifsignaled(status: i32) -> bool {
    1 <= status & 0x7f <= 126
}

/// Whether a wait status says the process was stopped (as `WIFSTOPPED` does on Linux).
pub open spec fn spec_wifstopped(status: i32) -> bool {
    status & 0xff == 0x7f
}

/// The exit code in a wait status (as `WEXITSTATUS` gives it on Linux).
pub open spec fn spec_wexitstatus(status: i32) -> i32 {
    (status >> 8) & 0xff
}

/// Whether the process was killed by a signal.
pub fn wifsignaled(status: i32) -> (r: bool)
    ensures
        r == spec_wifsignaled(status),
{
    let t = status & 0x7f;
    1 <= t && t <= 126
}

/// Whether the process was stopped.
pub fn wifstopped(status: i32) -> (r: bool)
    ensures
        r == spec_wifstopped(status),
{
    status & 0xff == 0x7f
}

/// The exit code of the process.
pub fn wexitstatus(status: i32) -> (r: i32)
    ensures
        r == spec_wexitstatus(status),
        0 <= r <= 255,
{
    let r = (status >> 8u32) & 0xff;
    assert(0 <= (status >> 8u32) & 0xff <= 255) by (bit_vector);
    r
}

/// How a run that reported `status` ended: a crash when a signal killed the
/// target, or when it exited with the code that marks crashes; else normal.
pub open spec fn spec_exit_kind_of_status(status: i32, crash_exitcode: Option<i8>) -> ExitKind {
    let exitcode_is_crash = match crash_exitcode {
        Some(c) => (spec_wexitstatus(status) as i8) == c,
        None => false,
    };
    if spec_wifsignaled(status) || exitcode_is_crash {
        ExitKind::Crash
    } else {
        ExitKind::Normal
    }
}

/// How a run that reported `status` ended.
pub fn exit_kind_of_status(status: i32, crash_exitcode: Option<i8>) -> (r: ExitKind)
    ensures
        r == spec_exit_kind_of_status(status, crash_exitcode),
{
    let exitcode_is_crash = match crash_exitcode {
        Some(c) => (wexitstatus(status) as i8) == c,
        None => false,
    };
    if wifsignaled(status) || exitcode_is_crash {
        ExitKind::Crash
    } else {
        ExitKind::Normal
    }
}

/// A target killed by a signal crashed, whatever exit code marks crashes.
pub proof fn lemma_signal_is_crash(status: i32, crash_exitcode: Option<i8>)
    requires
        1 <= status & 0x7f <= 126,
    ensures
        spec_exit_kind_of_status(status, crash_exitcode) == ExitKind::Crash,
{
}

/// Without an exit code that marks crashes, a run whose status does not say
/// a signal killed the target ended normally, whatever its exit code.
pub proof fn lemma_exit_without_crash_code_is_normal(status: i32)
    requires
        !(1 <= status & 0x7f <= 126),
    ensures
        spec_exit_kind_of_status(status, None) == ExitKind::Normal,
{
}

/// A target that exited with code `code` crashed exactly when that code is
/// the one that marks crashes; with none configured it ended normally.
pub proof fn lemma_exit_code_decides(code: u8, crash_exitcode: i8)
    ensures
        spec_exit_kind_of_status(((code as i32) * 256) as i32, None) == ExitKind::Normal,
        spec_exit_kind_of_status(((code as i32) * 256) as i32, Some(crash_exitcode)) == if code as i8
            == crash_exitcode {
            ExitKind::Crash
        } else {
            ExitKind::Normal
        },
{
    let status: i32 = ((code as i32) * 256) as i32;
    assert(status & 0x7f == 0) by (bit_vector)
        requires
            status == ((code as i32) * 256) as i32,
    ;
    assert(((status >> 8) & 0xff) as i8 == code as i8) by (bit_vector)
        requires
            status == ((code as i32) * 256) as i32,
    ;
}

/// What the fuzzer knows of the forkserver between runs: the child being
/// run, the last status, and whether the last run timed out.
#[derive(Debug, Clone, Copy)]
pub struct ForkserverRunState {
    /// Pid of the current forked child during a run.
    pub child_pid: Option<i32>,
    /// The last status the forkserver reported.
    pub status: i32,
    /// Whether the last run timed out (as the target reads it).
    pub last_run_timed_out: i32,
}

impl ForkserverRunState {
    /// No child, no status, no timeout.
    pub fn new() -> (r: Self)
        ensures
            r.child_pid is None,
            r.status == 0,
            r.last_run_timed_out == 0,
    {
        ForkserverRunState { child_pid: None, status: 0, last_run_timed_out: 0 }
    }

    /// If the last run timed out (as the target reads it).
    pub fn last_run_timed_out_raw(&self) -> (r: i32)
        ensures
            r == self.last_run_timed_out,
    {
        self.last_run_timed_out
    }

    /// If the last run timed out.
    pub fn last_run_timed_out(&self) -> (r: bool)
        ensures
            r == (self.last_run_timed_out != 0),
    {
        self.last_run_timed_out != 0
    }

    /// Sets if the last run timed out (as the target reads it).
    pub fn set_last_run_timed_out_raw(&mut self, last_run_timed_out: i32)
        ensures
            *final(self) == (ForkserverRunState { last_run_timed_out, ..*old(self) }),
    {
        self.last_run_timed_out = last_run_timed_out;
    }

    /// Sets if the last run timed out.
    pub fn set_last_run_timed_out(&mut self, last_run_timed_out: bool)
        ensures
            *final(self) == (ForkserverRunState {
                last_run_timed_out: if last_run_timed_out {
                    1i32
                } else {
                    0i32
                },
                ..*old(self)
            }),
    {
        self.last_run_timed_out = if last_run_timed_out {
            1
        } else {
            0
        };
    }

    /// The status.
    pub fn status(&self) -> (r: i32)
        ensures
            r == self.status,
    {
        self.status
    }

    /// Sets the status.
    pub fn set_status(&mut self, status: i32)
        ensures
            *final(self) == (ForkserverRunState { status, ..*old(self) }),
    {
        self.status = status;
    }

    /// The child pid.
    pub fn child_pid(&self) -> (r: Option<i32>)
        ensures
            r == self.child_pid,
    {
        self.child_pid
    }

    /// Sets the child pid.
    pub fn set_child_pid(&mut self, child_pid: i32)
        ensures
            *final(self) == (ForkserverRunState { child_pid: Some(child_pid), ..*old(self) }),
    {
        self.child_pid = Some(child_pid);
    }

    /// Forgets the child pid.
    pub fn reset_child_pid(&mut self)
        ensures
            *final(self) == (ForkserverRunState { child_pid: None, ..*old(self) }),
    {
        self.child_pid = None;
    }

    /// Starts a run: gives the value to write to the control pipe (whether the
    /// previous run timed out) and clears the timeout flag.
    pub fn begin_run(&mut self) -> (r: i32)
        ensures
            r == old(self).last_run_timed_out,
            *final(self) == (ForkserverRunState { last_run_timed_out: 0, ..*old(self) }),
    {
        let r = self.last_run_timed_out;
        self.set_last_run_timed_out(false);
        r
    }

    /// Takes the pid the forkserver sent for the new child.
    pub fn on_child_pid(&mut self, pid: i32) -> (r: Result<(), Error>)
        ensures
            pid <= 0 ==> (r matches Err(Error::Runtime(_))) && *final(self) == *old(self),
            pid > 0 ==> r is Ok && *final(self) == (ForkserverRunState {
                child_pid: Some(pid),
                ..*old(self)
            }),
    {
        if pid <= 0 {
            return Err(Error::Runtime("Fork server is misbehaving (OOM?)".to_string()));
        }
        self.set_child_pid(pid);
        Ok(())
    }

    /// Takes the status of a run that finished in time, and says how it ended.
    /// The child is forgotten unless it was only stopped.
    pub fn on_status(&mut self, status: i32, crash_exitcode: Option<i8>) -> (r: ExitKind)
        ensures
            r == spec_exit_kind_of_status(status, crash_exitcode),
            final(self).status == status,
            final(self).last_run_timed_out == old(self).last_run_timed_out,
            final(self).child_pid == if spec_wifstopped(status) {
                old(self).child_pid
            } else {
                None
            },
    {
        self.set_status(status);
        let kind = exit_kind_of_status(status, crash_exitcode);
        if !wifstopped(status) {
            self.reset_child_pid();
        }
        kind
    }

    /// Records that the run did not finish in time: gives the child to kill, if any.
    pub fn on_timeout(&mut self) -> (r: Option<i32>)
        ensures
            r == old(self).child_pid,
            final(self).last_run_timed_out == 1,
            final(self).status == old(self).status,
            final(self).child_pid == old(self).child_pid,
    {
        self.set_last_run_timed_out(true);
        self.child_pid
    }

    /// After the timed-out child was killed and its status read: the run is
    /// a timeout, and the child is forgotten unless the last status says stopped.
    pub fn after_timeout_kill(&mut self) -> (r: ExitKind)
        ensures
            r == ExitKind::Timeout,
            final(self).status == old(self).status,
            final(self).last_run_timed_out == old(self).last_run_timed_out,
            final(self).child_pid == if spec_wifstopped(old(self).status) {
                old(self).child_pid
            } else {
                None
            },
    {
        if !wifstopped(self.status) {
            self.reset_child_pid();
        }
        ExitKind::Timeout
    }
}

/// The settings of a forkserver executor that decide how the handshake and
/// the runs go; the program, its arguments and its environment are handed
/// to the process that starts the target.
#[derive(Debug, Clone, Copy)]
pub struct ForkserverExecutorBuilder {
    /// Whether inputs go through shared memory.
    pub uses_shmem_testcase: bool,
    /// Persistent mode.
    pub is_persistent: bool,
    /// Deferred forkserver.
    pub is_deferred_frksrv: bool,
    /// Only a forkserver, no coverage.
    pub is_fsrv_only: bool,
    /// Whether to offer shared memory for the inputs.
    pub try_use_input_shmem: bool,
    /// The largest input handed to the target.
    pub max_input_size: usize,
    /// The smallest input handed to the target.
    pub min_input_size: usize,
    /// The size of the coverage map.
    pub map_size: Option<usize>,
    /// The exit code that marks a crash.
    pub crash_exitcode: Option<i8>,
}

impl ForkserverExecutorBuilder {
    /// The default settings: no option, default input sizes, no map size.
    pub fn new() -> (r: Self)
        ensures
            !r.uses_shmem_testcase && !r.is_persistent && !r.is_deferred_frksrv && !r.is_fsrv_only
                && !r.try_use_input_shmem,
            r.max_input_size == MAX_INPUT_SIZE_DEFAULT,
            r.min_input_size == MIN_INPUT_SIZE_DEFAULT,
            r.map_size is None,
            r.crash_exitcode is None,
    {
        ForkserverExecutorBuilder {
            uses_shmem_testcase: false,
            is_persistent: false,
            is_deferred_frksrv: false,
            is_fsrv_only: false,
            try_use_input_shmem: false,
            max_input_size: MAX_INPUT_SIZE_DEFAULT,
            min_input_size: MIN_INPUT_SIZE_DEFAULT,
            map_size: None,
            crash_exitcode: None,
        }
    }

    /// Only a forkserver, without coverage.
    pub fn fsrv_only(self, fsrv_only: bool) -> (r: Self)
        ensures
            r == (Self { is_fsrv_only: fsrv_only, ..self }),
    {
        Self { is_fsrv_only: fsrv_only, ..self }
    }

    /// Sets the largest input handed to the target.
    pub fn max_input_size(self, size: usize) -> (r: Self)
        ensures
            r == (Self { max_input_size: size, ..self }),
    {
        Self { max_input_size: size, ..self }
    }

    /// Sets the smallest input handed to the target.
    pub fn min_input_size(self, size: usize) -> (r: Self)
        ensures
            r == (Self { min_input_size: size, ..self }),
    {
        Self { min_input_size: size, ..self }
    }

    /// Persistent mode.
    pub fn is_persistent(self, is_persistent: bool) -> (r: Self)
        ensures
            r == (Self { is_persistent, ..self }),
    {
        Self { is_persistent, ..self }
    }

    /// Treats a run as a crash when it exits with `exitcode`.
    pub fn crash_exitcode(self, exitcode: i8) -> (r: Self)
        ensures
            r == (Self { crash_exitcode: Some(exitcode), ..self }),
    {
        Self { crash_exitcode: Some(exitcode), ..self }
    }

    /// Deferred forkserver.
    pub fn is_deferred_frksrv(self, is_deferred_frksrv: bool) -> (r: Self)
        ensures
            r == (Self { is_deferred_frksrv, ..self }),
    {
        Self { is_deferred_frksrv, ..self }
    }

    /// Sets the size of the coverage map.
    pub fn coverage_map_size(self, size: usize) -> (r: Self)
        ensures
            r == (Self { map_size: Some(size), ..self }),
    {
        Self { map_size: Some(size), ..self }
    }

    /// Offers shared memory for the inputs.
    pub fn try_use_input_shmem(self) -> (r: Self)
        ensures
            r == (Self { try_use_input_shmem: true, ..self }),
    {
        Self { try_use_input_shmem: true, ..self }
    }

    /// Takes the map size the target reports: it must fit in the map
    /// allocated, and the rounded size becomes the map size.
    pub fn set_map_size(&mut self, fsrv_map_size: i32) -> (r: Result<usize, Error>)
        requires
            fsrv_map_size <= i32::MAX - 63,
        ensures
            match spec_map_size_result(fsrv_map_size as int, old(self).map_size) {
                Ok(v) => r == Ok::<usize, Error>(v) && *final(self) == (Self {
                    map_size: Some(v),
                    ..*old(self)
                }),
                Err(_) => (r matches Err(Error::IllegalState(_))) && *final(self) == *old(self),
            },
    {
        let r = checked_map_size(fsrv_map_size, self.map_size);
        match r {
            Ok(v) => {
                self.map_size = Some(v);
                Ok(v)
            },
            Err(e) => Err(e),
        }
    }

    /// The handshake to run with a forkserver started with these settings.
    pub fn handshake(&self, input_map_allocated: bool, autotokens: Option<Tokens>) -> (r: Handshake)
        ensures
            r.spec_stage() == HandshakeStage::Hello,
            r.spec_input_map_allocated() == input_map_allocated,
            r.spec_map_size() == self.map_size,
            !r.spec_uses_shmem_testcase(),
    {
        Handshake::new(input_map_allocated, self.map_size, autotokens)
    }
}

impl Default for ForkserverExecutorBuilder {
    fn default() -> (r: Self)
        ensures
            !r.uses_shmem_testcase && !r.is_persistent && !r.is_deferred_frksrv && !r.is_fsrv_only
                && !r.try_use_input_shmem,
            r.max_input_size == MAX_INPUT_SIZE_DEFAULT,
            r.min_input_size == MIN_INPUT_SIZE_DEFAULT,
            r.map_size is None,
            r.crash_exitcode is None,
    {
        Self::new()
    }
}

} // verus!
