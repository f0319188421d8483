//! Interpreter error codes and the error value carried through the runtime.

use vstd::prelude::*;
use vstd::string::StringExecFns;

verus! {

/// Interpreter error code. Each code has a stable byte value (see [`ItrErrCode::code`]).
#[derive(PartialEq, Eq, Structural, Debug, Clone, Copy)]
pub enum ItrErrCode {
    ContractError,
    NotFindContract,
    AbstTypeError,
    CodeTypeError,
    InheritError,
    LibraryError,
    CompileError,
    ContractAddrErr,
    ContractUpgradeErr,
    CodeError,
    CodeTooLong,
    CodeOverflow,
    CodeEmpty,
    CodeNotWithEnd,
    JumpOverflow,
    JumpInDataSeg,
    IRNodeOverDepth,
    InstInvalid,
    InstDisabled,
    ActDisabled,
    InstNeverTouch,
    InstParamsErr,
    OutOfGas,
    OutOfStack,
    OutOfLocal,
    OutOfHeap,
    OutOfMemory,
    OutOfGlobal,
    OutOfCallDepth,
    OutOfLoadContract,
    OutOfValueSize,
    OutOfCompoLen,
    GasError,
    StackError,
    LocalError,
    HeapError,
    MemoryError,
    GlobalError,
    StorageError,
    OutOfLogSize,
    LogError,
    CallNotExist,
    CallLibIdxOverflow,
    CallInvalid,
    CallExitInvalid,
    CallInAbst,
    CallOtherInMain,
    CallLocInView,
    CallInPure,
    CallOtherInP2sh,
    CallNoReturn,
    CallNotExternal,
    CallArgvTypeFail,
    CastFail,
    CastParamFail,
    CastBeKeyFail,
    CastBeUintFail,
    CastBeBytesFail,
    CastBeValueFail,
    CastBeFnArgvFail,
    CastBeCallDataFail,
    CastBeFnRetvFail,
    CompoOpInvalid,
    CompoOpOverflow,
    CompoToSerialize,
    CompoOpNotMatch,
    CompoPackError,
    CompoNoFindItem,
    Arithmetic,
    BytesHandle,
    NativeFuncError,
    NativeEnvError,
    NativeCtlError,
    ActCallError,
    ActCallRevert,
    ItemNoSize,
    StorageKeyInvalid,
    StorageKeyNotFind,
    StorageExpired,
    StorageNotExpired,
    StoragePeriodErr,
    StorageValSizeErr,
    StorageRestoreNotMatch,
    StorageNotActive,
    StorageKeyExists,
    StorageNilNotAllowed,
    ThrowAbort,
    DeferredError,
    IntentError,
    ExecutionDeadline,
    StateReadFailed,
    StateDecodeFailed,
    CodecOnlyUnsupported,
    NeverError,
}

/// The stable byte value of an error code.
pub open spec fn err_code_byte(c: ItrErrCode) -> u8 {
    match c {
        ItrErrCode::ContractError => 1,
        ItrErrCode::NotFindContract => 2,
        ItrErrCode::AbstTypeError => 3,
        ItrErrCode::CodeTypeError => 4,
        ItrErrCode::InheritError => 5,
        ItrErrCode::LibraryError => 6,
        ItrErrCode::CompileError => 7,
        ItrErrCode::ContractAddrErr => 8,
        ItrErrCode::ContractUpgradeErr => 9,
        ItrErrCode::CodeError => 11,
        ItrErrCode::CodeTooLong => 12,
        ItrErrCode::CodeOverflow => 13,
        ItrErrCode::CodeEmpty => 14,
        ItrErrCode::CodeNotWithEnd => 15,
        ItrErrCode::JumpOverflow => 16,
        ItrErrCode::JumpInDataSeg => 17,
        ItrErrCode::IRNodeOverDepth => 20,
        ItrErrCode::InstInvalid => 21,
        ItrErrCode::InstDisabled => 22,
        ItrErrCode::ActDisabled => 23,
        ItrErrCode::InstNeverTouch => 24,
        ItrErrCode::InstParamsErr => 25,
        ItrErrCode::OutOfGas => 31,
        ItrErrCode::OutOfStack => 32,
        ItrErrCode::OutOfLocal => 33,
        ItrErrCode::OutOfHeap => 34,
        ItrErrCode::OutOfMemory => 35,
        ItrErrCode::OutOfGlobal => 36,
        ItrErrCode::OutOfCallDepth => 37,
        ItrErrCode::OutOfLoadContract => 38,
        ItrErrCode::OutOfValueSize => 39,
        ItrErrCode::OutOfCompoLen => 40,
        ItrErrCode::GasError => 41,
        ItrErrCode::StackError => 42,
        ItrErrCode::LocalError => 43,
        ItrErrCode::HeapError => 44,
        ItrErrCode::MemoryError => 45,
        ItrErrCode::GlobalError => 46,
        ItrErrCode::StorageError => 47,
        ItrErrCode::OutOfLogSize => 48,
        ItrErrCode::LogError => 49,
        ItrErrCode::CallNotExist => 51,
        ItrErrCode::CallLibIdxOverflow => 52,
        ItrErrCode::CallInvalid => 53,
        ItrErrCode::CallExitInvalid => 54,
        ItrErrCode::CallInAbst => 56,
        ItrErrCode::CallOtherInMain => 57,
        ItrErrCode::CallLocInView => 58,
        ItrErrCode::CallInPure => 59,
        ItrErrCode::CallOtherInP2sh => 60,
        ItrErrCode::CallNoReturn => 61,
        ItrErrCode::CallNotExternal => 62,
        ItrErrCode::CallArgvTypeFail => 63,
        ItrErrCode::CastFail => 71,
        ItrErrCode::CastParamFail => 72,
        ItrErrCode::CastBeKeyFail => 73,
        ItrErrCode::CastBeUintFail => 74,
        ItrErrCode::CastBeBytesFail => 75,
        ItrErrCode::CastBeValueFail => 76,
        ItrErrCode::CastBeFnArgvFail => 77,
        ItrErrCode::CastBeCallDataFail => 78,
        ItrErrCode::CastBeFnRetvFail => 79,
        ItrErrCode::CompoOpInvalid => 80,
        ItrErrCode::CompoOpOverflow => 81,
        ItrErrCode::CompoToSerialize => 82,
        ItrErrCode::CompoOpNotMatch => 83,
        ItrErrCode::CompoPackError => 84,
        ItrErrCode::CompoNoFindItem => 85,
        ItrErrCode::Arithmetic => 90,
        ItrErrCode::BytesHandle => 91,
        ItrErrCode::NativeFuncError => 92,
        ItrErrCode::NativeEnvError => 93,
        ItrErrCode::NativeCtlError => 94,
        ItrErrCode::ActCallError => 95,
        ItrErrCode::ActCallRevert => 96,
        ItrErrCode::ItemNoSize => 97,
        ItrErrCode::StorageKeyInvalid => 101,
        ItrErrCode::StorageKeyNotFind => 102,
        ItrErrCode::StorageExpired => 103,
        ItrErrCode::StorageNotExpired => 104,
        ItrErrCode::StoragePeriodErr => 105,
        ItrErrCode::StorageValSizeErr => 106,
        ItrErrCode::StorageRestoreNotMatch => 107,
        ItrErrCode::StorageNotActive => 108,
        ItrErrCode::StorageKeyExists => 109,
        ItrErrCode::StorageNilNotAllowed => 110,
        ItrErrCode::ThrowAbort => 151,
        ItrErrCode::DeferredError => 152,
        ItrErrCode::IntentError => 153,
        ItrErrCode::ExecutionDeadline => 154,
        ItrErrCode::StateReadFailed => 161,
        ItrErrCode::StateDecodeFailed => 162,
        ItrErrCode::CodecOnlyUnsupported => 163,
        ItrErrCode::NeverError => 255,
    }
}

impl ItrErrCode {
    /// The stable byte value of this code.
    pub fn code(&self) -> (r: u8)
        ensures
            r == err_code_byte(*self),
    {
        match self {
            ItrErrCode::ContractError => 1,
            ItrErrCode::NotFindContract => 2,
            ItrErrCode::AbstTypeError => 3,
            ItrErrCode::CodeTypeError => 4,
            ItrErrCode::InheritError => 5,
            ItrErrCode::LibraryError => 6,
            ItrErrCode::CompileError => 7,
            ItrErrCode::ContractAddrErr => 8,
            ItrErrCode::ContractUpgradeErr => 9,
            ItrErrCode::CodeError => 11,
            ItrErrCode::CodeTooLong => 12,
            ItrErrCode::CodeOverflow => 13,
            ItrErrCode::CodeEmpty => 14,
            ItrErrCode::CodeNotWithEnd => 15,
            ItrErrCode::JumpOverflow => 16,
            ItrErrCode::JumpInDataSeg => 17,
            ItrErrCode::IRNodeOverDepth => 20,
            ItrErrCode::InstInvalid => 21,
            ItrErrCode::InstDisabled => 22,
            ItrErrCode::ActDisabled => 23,
            ItrErrCode::InstNeverTouch => 24,
            ItrErrCode::InstParamsErr => 25,
            ItrErrCode::OutOfGas => 31,
            ItrErrCode::OutOfStack => 32,
            ItrErrCode::OutOfLocal => 33,
            ItrErrCode::OutOfHeap => 34,
            ItrErrCode::OutOfMemory => 35,
            ItrErrCode::OutOfGlobal => 36,
            ItrErrCode::OutOfCallDepth => 37,
            ItrErrCode::OutOfLoadContract => 38,
            ItrErrCode::OutOfValueSize => 39,
            ItrErrCode::OutOfCompoLen => 40,
            ItrErrCode::GasError => 41,
            ItrErrCode::StackError => 42,
            ItrErrCode::LocalError => 43,
            ItrErrCode::HeapError => 44,
            ItrErrCode::MemoryError => 45,
            ItrErrCode::GlobalError => 46,
            ItrErrCode::StorageError => 47,
            ItrErrCode::OutOfLogSize => 48,
            ItrErrCode::LogError => 49,
            ItrErrCode::CallNotExist => 51,
            ItrErrCode::CallLibIdxOverflow => 52,
            ItrErrCode::CallInvalid => 53,
            ItrErrCode::CallExitInvalid => 54,
            ItrErrCode::CallInAbst => 56,
            ItrErrCode::CallOtherInMain => 57,
            ItrErrCode::CallLocInView => 58,
            ItrErrCode::CallInPure => 59,
            ItrErrCode::CallOtherInP2sh => 60,
            ItrErrCode::CallNoReturn => 61,
            ItrErrCode::CallNotExternal => 62,
            ItrErrCode::CallArgvTypeFail => 63,
            ItrErrCode::CastFail => 71,
            ItrErrCode::CastParamFail => 72,
            ItrErrCode::CastBeKeyFail => 73,
            ItrErrCode::CastBeUintFail => 74,
            ItrErrCode::CastBeBytesFail => 75,
            ItrErrCode::CastBeValueFail => 76,
            ItrErrCode::CastBeFnArgvFail => 77,
            ItrErrCode::CastBeCallDataFail => 78,
            ItrErrCode::CastBeFnRetvFail => 79,
            ItrErrCode::CompoOpInvalid => 80,
            ItrErrCode::CompoOpOverflow => 81,
            ItrErrCode::CompoToSerialize => 82,
            ItrErrCode::CompoOpNotMatch => 83,
            ItrErrCode::CompoPackError => 84,
            ItrErrCode::CompoNoFindItem => 85,
            ItrErrCode::Arithmetic => 90,
            ItrErrCode::BytesHandle => 91,
            ItrErrCode::NativeFuncError => 92,
            ItrErrCode::NativeEnvError => 93,
            ItrErrCode::NativeCtlError => 94,
            ItrErrCode::ActCallError => 95,
            ItrErrCode::ActCallRevert => 96,
            ItrErrCode::ItemNoSize => 97,
            ItrErrCode::StorageKeyInvalid => 101,
            ItrErrCode::StorageKeyNotFind => 102,
            ItrErrCode::StorageExpired => 103,
            ItrErrCode::StorageNotExpired => 104,
            ItrErrCode::StoragePeriodErr => 105,
            ItrErrCode::StorageValSizeErr => 106,
            ItrErrCode::StorageRestoreNotMatch => 107,
            ItrErrCode::StorageNotActive => 108,
            ItrErrCode::StorageKeyExists => 109,
            ItrErrCode::StorageNilNotAllowed => 110,
            ItrErrCode::ThrowAbort => 151,
            ItrErrCode::DeferredError => 152,
            ItrErrCode::IntentError => 153,
            ItrErrCode::ExecutionDeadline => 154,
            ItrErrCode::StateReadFailed => 161,
            ItrErrCode::StateDecodeFailed => 162,
            ItrErrCode::CodecOnlyUnsupported => 163,
            ItrErrCode::NeverError => 255,
        }
    }

    /// The code whose byte value is `v`, if any.
    pub fn from_code(v: u8) -> (r: Option<ItrErrCode>)
        ensures
            r matches Some(c) ==> err_code_byte(c) == v,
            r is None ==> forall|c: ItrErrCode| err_code_byte(c) != v,
    {
        match v {
            1 => Some(ItrErrCode::ContractError),
            2 => Some(ItrErrCode::NotFindContract),
            3 => Some(ItrErrCode::AbstTypeError),
            4 => Some(ItrErrCode::CodeTypeError),
            5 => Some(ItrErrCode::InheritError),
            6 => Some(ItrErrCode::LibraryError),
            7 => Some(ItrErrCode::CompileError),
            8 => Some(ItrErrCode::ContractAddrErr),
            9 => Some(ItrErrCode::ContractUpgradeErr),
            11 => Some(ItrErrCode::CodeError),
            12 => Some(ItrErrCode::CodeTooLong),
            13 => Some(ItrErrCode::CodeOverflow),
            14 => Some(ItrErrCode::CodeEmpty),
            15 => Some(ItrErrCode::CodeNotWithEnd),
            16 => Some(ItrErrCode::JumpOverflow),
            17 => Some(ItrErrCode::JumpInDataSeg),
            20 => Some(ItrErrCode::IRNodeOverDepth),
            21 => Some(ItrErrCode::InstInvalid),
            22 => Some(ItrErrCode::InstDisabled),
            23 => Some(ItrErrCode::ActDisabled),
            24 => Some(ItrErrCode::InstNeverTouch),
            25 => Some(ItrErrCode::InstParamsErr),
            31 => Some(ItrErrCode::OutOfGas),
            32 => Some(ItrErrCode::OutOfStack),
            33 => Some(ItrErrCode::OutOfLocal),
            34 => Some(ItrErrCode::OutOfHeap),
            35 => Some(ItrErrCode::OutOfMemory),
            36 => Some(ItrErrCode::OutOfGlobal),
            37 => Some(ItrErrCode::OutOfCallDepth),
            38 => Some(ItrErrCode::OutOfLoadContract),
            39 => Some(ItrErrCode::OutOfValueSize),
            40 => Some(ItrErrCode::OutOfCompoLen),
            41 => Some(ItrErrCode::GasError),
            42 => Some(ItrErrCode::StackError),
            43 => Some(ItrErrCode::LocalError),
            44 => Some(ItrErrCode::HeapError),
            45 => Some(ItrErrCode::MemoryError),
            46 => Some(ItrErrCode::GlobalError),
            47 => Some(ItrErrCode::StorageError),
            48 => Some(ItrErrCode::OutOfLogSize),
            49 => Some(ItrErrCode::LogError),
            51 => Some(ItrErrCode::CallNotExist),
            52 => Some(ItrErrCode::CallLibIdxOverflow),
            53 => Some(ItrErrCode::CallInvalid),
            54 => Some(ItrErrCode::CallExitInvalid),
            56 => Some(ItrErrCode::CallInAbst),
            57 => Some(ItrErrCode::CallOtherInMain),
            58 => Some(ItrErrCode::CallLocInView),
            59 => Some(ItrErrCode::CallInPure),
            60 => Some(ItrErrCode::CallOtherInP2sh),
            61 => Some(ItrErrCode::CallNoReturn),
            62 => Some(ItrErrCode::CallNotExternal),
            63 => Some(ItrErrCode::CallArgvTypeFail),
            71 => Some(ItrErrCode::CastFail),
            72 => Some(ItrErrCode::CastParamFail),
            73 => Some(ItrErrCode::CastBeKeyFail),
            74 => Some(ItrErrCode::CastBeUintFail),
            75 => Some(ItrErrCode::CastBeBytesFail),
            76 => Some(ItrErrCode::CastBeValueFail),
            77 => Some(ItrErrCode::CastBeFnArgvFail),
            78 => Some(ItrErrCode::CastBeCallDataFail),
            79 => Some(ItrErrCode::CastBeFnRetvFail),
            80 => Some(ItrErrCode::CompoOpInvalid),
            81 => Some(ItrErrCode::CompoOpOverflow),
            82 => Some(ItrErrCode::CompoToSerialize),
            83 => Some(ItrErrCode::CompoOpNotMatch),
            84 => Some(ItrErrCode::CompoPackError),
            85 => Some(ItrErrCode::CompoNoFindItem),
            90 => Some(ItrErrCode::Arithmetic),
            91 => Some(ItrErrCode::BytesHandle),
            92 => Some(ItrErrCode::NativeFuncError),
            93 => Some(ItrErrCode::NativeEnvError),
            94 => Some(ItrErrCode::NativeCtlError),
            95 => Some(ItrErrCode::ActCallError),
            96 => Some(ItrErrCode::ActCallRevert),
            97 => Some(ItrErrCode::ItemNoSize),
            101 => Some(ItrErrCode::StorageKeyInvalid),
            102 => Some(ItrErrCode::StorageKeyNotFind),
            103 => Some(ItrErrCode::StorageExpired),
            104 => Some(ItrErrCode::StorageNotExpired),
            105 => Some(ItrErrCode::StoragePeriodErr),
            106 => Some(ItrErrCode::StorageValSizeErr),
            107 => Some(ItrErrCode::StorageRestoreNotMatch),
            108 => Some(ItrErrCode::StorageNotActive),
            109 => Some(ItrErrCode::StorageKeyExists),
            110 => Some(ItrErrCode::StorageNilNotAllowed),
            151 => Some(ItrErrCode::ThrowAbort),
            152 => Some(ItrErrCode::DeferredError),
            153 => Some(ItrErrCode::IntentError),
            154 => Some(ItrErrCode::ExecutionDeadline),
            161 => Some(ItrErrCode::StateReadFailed),
            162 => Some(ItrErrCode::StateDecodeFailed),
            163 => Some(ItrErrCode::CodecOnlyUnsupported),
            255 => Some(ItrErrCode::NeverError),
            _ => None,
        }
    }
}

impl Default for ItrErrCode {
    fn default() -> (r: Self)
        ensures
            r == ItrErrCode::NeverError,
    {
        ItrErrCode::NeverError
    }
}

/// An interpreter error: its code and a human-readable tip.
#[derive(Debug)]
pub struct ItrErr(pub ItrErrCode, pub String);

impl ItrErr {
    /// An error with the given code and tip.
    pub fn new(n: ItrErrCode, tip: &str) -> (r: ItrErr)
        ensures
            r.0 == n,
            r.1@ == tip@,
    {
        ItrErr(n, tip.to_owned())
    }

    /// An error with the given code and an empty tip.
    pub fn code(n: ItrErrCode) -> (r: ItrErr)
        ensures
            r.0 == n,
            r.1@ == Seq::<char>::empty(),
    {
        ItrErr(n, String::new())
    }
}

/// Result of a runtime operation.
pub type VmrtRes<T> = Result<T, ItrErr>;

/// Result of a runtime operation with no value.
pub type VmrtErr = Result<(), ItrErr>;

/// The class an interpreter error takes when it leaves the VM.
#[derive(PartialEq, Eq, Structural, Debug, Clone, Copy)]
pub enum BoundaryClass {
    /// Recoverable: the action call reverted.
    Revert,
    /// Fatal: canonical state could not be read or decoded.
    Abort,
    /// Ordinary execution failure.
    Fault,
}

/// How an error code is classified at the VM boundary.
pub open spec fn boundary_class_of(c: ItrErrCode) -> BoundaryClass {
    match c {
        ItrErrCode::ActCallRevert => BoundaryClass::Revert,
        ItrErrCode::StateReadFailed => BoundaryClass::Abort,
        ItrErrCode::StateDecodeFailed => BoundaryClass::Abort,
        _ => BoundaryClass::Fault,
    }
}

/// The code an error keeps when it leaves the VM: only the two state-layer
/// failures keep theirs.
pub open spec fn boundary_code_of(c: ItrErrCode) -> Option<ItrErrCode> {
    match c {
        ItrErrCode::StateReadFailed => Some(ItrErrCode::StateReadFailed),
        ItrErrCode::StateDecodeFailed => Some(ItrErrCode::StateDecodeFailed),
        _ => None,
    }
}

/// An interpreter error as seen outside the VM.
#[derive(Debug)]
pub struct BoundaryError {
    pub class: BoundaryClass,
    pub code: Option<ItrErrCode>,
    pub msg: String,
}

impl BoundaryError {
    pub fn is_revert(&self) -> (r: bool)
        ensures
            r == (self.class == BoundaryClass::Revert),
    {
        self.class == BoundaryClass::Revert
    }

    pub fn is_abort(&self) -> (r: bool)
        ensures
            r == (self.class == BoundaryClass::Abort),
    {
        self.class == BoundaryClass::Abort
    }

    pub fn is_fault(&self) -> (r: bool)
        ensures
            r == (self.class == BoundaryClass::Fault),
    {
        self.class == BoundaryClass::Fault
    }

    pub fn code(&self) -> (r: Option<ItrErrCode>)
        ensures
            r == self.code,
    {
        self.code
    }
}

impl ItrErr {
    /// Convert this error at the VM boundary: `ActCallRevert` stays a revert,
    /// state read/decode failures become fatal aborts that keep their code,
    /// everything else is an ordinary fault without a code.
    pub fn into_boundary(self) -> (r: BoundaryError)
        ensures
            r.class == boundary_class_of(self.0),
            r.code == boundary_code_of(self.0),
            r.msg@ == self.1@,
    {
        let ItrErr(code, msg) = self;
        let class = match code {
            ItrErrCode::ActCallRevert => BoundaryClass::Revert,
            ItrErrCode::StateReadFailed => BoundaryClass::Abort,
            ItrErrCode::StateDecodeFailed => BoundaryClass::Abort,
            _ => BoundaryClass::Fault,
        };
        let kept = match code {
            ItrErrCode::StateReadFailed => Some(ItrErrCode::StateReadFailed),
            ItrErrCode::StateDecodeFailed => Some(ItrErrCode::StateDecodeFailed),
            _ => None,
        };
        BoundaryError { class, code: kept, msg }
    }
}

/// The code a native action's error takes inside the VM: a fatal error keeps
/// its state-layer code (a decode failure, or else a read failure); any other
/// error is an ordinary action-call failure.
pub open spec fn spec_native_action_code(e: BoundaryError) -> ItrErrCode {
    if e.class == BoundaryClass::Abort {
        match e.code {
            Some(ItrErrCode::StateDecodeFailed) => ItrErrCode::StateDecodeFailed,
            _ => ItrErrCode::StateReadFailed,
        }
    } else {
        ItrErrCode::ActCallError
    }
}

/// Map a native action's error to the code it carries inside the VM.
pub fn map_native_action_code(e: &BoundaryError) -> (r: ItrErrCode)
    ensures
        r == spec_native_action_code(*e),
{
    if e.is_abort() {
        match e.code {
            Some(ItrErrCode::StateDecodeFailed) => ItrErrCode::StateDecodeFailed,
            _ => ItrErrCode::StateReadFailed,
        }
    } else {
        ItrErrCode::ActCallError
    }
}

/// The code an outside error is given inside the VM: a fatal one keeps its
/// state-layer code, any other takes the caller's code.
pub open spec fn spec_mapped_code(e: BoundaryError, ec: ItrErrCode) -> ItrErrCode {
    if e.class == BoundaryClass::Abort {
        spec_native_action_code(e)
    } else {
        ec
    }
}

/// Bytes handed back as a runtime result.
pub trait IntoVmrt: Sized {
    fn into_vmrt(self) -> VmrtRes<Vec<u8>>;
}

impl IntoVmrt for Vec<u8> {
    fn into_vmrt(self) -> (r: VmrtRes<Vec<u8>>)
        ensures
            r matches Ok(v) && v@ == self@,
    {
        Ok(self)
    }
}

/// Turn an outside error into an interpreter error with a given code.
pub trait MapItrErr<T>: Sized {
    fn map_ire(self, ec: ItrErrCode) -> VmrtRes<T>;
}

/// Turn an outside error into an interpreter error with a given code and a
/// prefix for its message.
pub trait MapItrStrErr<T>: Sized {
    fn map_ires(self, ec: ItrErrCode, es: String) -> VmrtRes<T>;
}

impl<T> MapItrErr<T> for Result<T, BoundaryError> {
    fn map_ire(self, ec: ItrErrCode) -> (r: VmrtRes<T>)
        ensures
            match self {
                Ok(v) => r == Ok::<T, ItrErr>(v),
                Err(e) => r matches Err(x) && x.0 == spec_mapped_code(e, ec) && x.1@ == e.msg@,
            },
    {
        match self {
            Ok(v) => Ok(v),
            Err(e) => {
                let code = if e.is_abort() { map_native_action_code(&e) } else { ec };
                Err(ItrErr(code, e.msg))
            },
        }
    }
}

impl<T> MapItrStrErr<T> for Result<T, BoundaryError> {
    fn map_ires(self, ec: ItrErrCode, es: String) -> (r: VmrtRes<T>)
        ensures
            match self {
                Ok(v) => r == Ok::<T, ItrErr>(v),
                Err(e) => r matches Err(x) && x.0 == spec_mapped_code(e, ec) && x.1@ == es@ + e.msg@,
            },
    {
        match self {
            Ok(v) => Ok(v),
            Err(e) => {
                let code = if e.is_abort() { map_native_action_code(&e) } else { ec };
                Err(ItrErr(code, es.concat(e.msg.as_str())))
            },
        }
    }
}

/// An error that leaves the VM and comes back keeps its fatal class: mapping a
/// converted error back into the VM gives the state-layer code it left with,
/// whatever code the caller asks for.
pub proof fn lemma_abort_survives_round_trip(c: ItrErrCode, ec: ItrErrCode, msg: String)
    requires
        c == ItrErrCode::StateReadFailed || c == ItrErrCode::StateDecodeFailed,
    ensures
        spec_mapped_code(
            BoundaryError { class: boundary_class_of(c), code: boundary_code_of(c), msg },
            ec,
        ) == c,
{
}

/// Every code has a distinct byte value.
pub proof fn lemma_err_code_byte_injective(a: ItrErrCode, b: ItrErrCode)
    ensures
        err_code_byte(a) == err_code_byte(b) ==> a == b,
{
}

/// Only the state-layer failures are fatal at the VM boundary, and a fatal error
/// always keeps its code; a revert or a fault never carries one.
pub proof fn lemma_boundary_abort_iff_keeps_code(c: ItrErrCode)
    ensures
        (boundary_class_of(c) == BoundaryClass::Abort) <==> boundary_code_of(c) is Some,
        boundary_class_of(c) == BoundaryClass::Abort <==> (c == ItrErrCode::StateReadFailed || c == ItrErrCode::StateDecodeFailed),
{
}

} // verus!
