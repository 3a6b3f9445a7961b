//! Result codes and error types of the kernel interface.
use vstd::prelude::*;

verus! {

/// All result codes (including success) that the kernel interface can
/// return.
#[derive(Debug, Clone, Copy, PartialEq, Eq, Structural, Hash)]
pub enum ResultCode {
    /// The operation was successful. No additional information is available.
    Success,
    /// The operation is not supported.
    NotSupported,
    /// A parameter is invalid in a way that is no covered by any other error codes.
    BadParam,
    /// The current operation was rejected by an optional protection mechanism.
    NoAccess,
    /// The current context disallows the operation.
    BadContext,
    /// The caller does not own the resource.
    NotOwner,
    /// Resource deadlock would occur.
    WouldDeadlock,
    /// A target object is in a state that disallows the operation.
    BadObjectState,
    /// An operation or an object couldn't be enqueued because there are too many of such things that already have been enqueued.
    QueueOverflow,
    /// The owner of a mutex exited while holding the mutex lock.
    Abandoned,
    /// The wait operation was interrupted by `Task::interrupt`.
    Interrupted,
    /// The operation timed out.
    Timeout,
}

impl ResultCode {
    /// The numeric value of the result code.
    pub open spec fn value_spec(self) -> i8 {
        match self {
            ResultCode::Success => 0i8,
            ResultCode::NotSupported => -9i8,
            ResultCode::BadParam => -17i8,
            ResultCode::NoAccess => -18i8,
            ResultCode::BadContext => -25i8,
            ResultCode::NotOwner => -29i8,
            ResultCode::WouldDeadlock => -30i8,
            ResultCode::BadObjectState => -41i8,
            ResultCode::QueueOverflow => -43i8,
            ResultCode::Abandoned => -44i8,
            ResultCode::Interrupted => -49i8,
            ResultCode::Timeout => -50i8,
        }
    }

    /// The numeric value of the result code.
    pub fn value(self) -> (r: i8)
        ensures
            r == self.value_spec(),
    {
        match self {
            ResultCode::Success => 0,
            ResultCode::NotSupported => -9,
            ResultCode::BadParam => -17,
            ResultCode::NoAccess => -18,
            ResultCode::BadContext => -25,
            ResultCode::NotOwner => -29,
            ResultCode::WouldDeadlock => -30,
            ResultCode::BadObjectState => -41,
            ResultCode::QueueOverflow => -43,
            ResultCode::Abandoned => -44,
            ResultCode::Interrupted => -49,
            ResultCode::Timeout => -50,
        }
    }

    /// Get a flag indicating whether the code represents a failure.
    ///
    /// Failure codes have negative values.
    pub fn is_err(self) -> (r: bool)
        ensures
            r == (self.value_spec() < 0),
    {
        self.value() < 0
    }

    /// Get a flag indicating whether the code represents a success.
    ///
    /// Success codes have non-negative values.
    pub fn is_ok(self) -> (r: bool)
        ensures
            r == (self.value_spec() >= 0),
    {
        !self.is_err()
    }

    /// The short name of the result code: the name of its variant.
    pub open spec fn name_spec(self) -> Seq<char> {
        match self {
            ResultCode::Success => "Success"@,
            ResultCode::NotSupported => "NotSupported"@,
            ResultCode::BadParam => "BadParam"@,
            ResultCode::NoAccess => "NoAccess"@,
            ResultCode::BadContext => "BadContext"@,
            ResultCode::NotOwner => "NotOwner"@,
            ResultCode::WouldDeadlock => "WouldDeadlock"@,
            ResultCode::BadObjectState => "BadObjectState"@,
            ResultCode::QueueOverflow => "QueueOverflow"@,
            ResultCode::Abandoned => "Abandoned"@,
            ResultCode::Interrupted => "Interrupted"@,
            ResultCode::Timeout => "Timeout"@,
        }
    }

    /// Get the short name of the result code.
    pub fn as_str(self) -> (r: &'static str)
        ensures
            r@ == self.name_spec(),
    {
        match self {
            ResultCode::Success => "Success",
            ResultCode::NotSupported => "NotSupported",
            ResultCode::BadParam => "BadParam",
            ResultCode::NoAccess => "NoAccess",
            ResultCode::BadContext => "BadContext",
            ResultCode::NotOwner => "NotOwner",
            ResultCode::WouldDeadlock => "WouldDeadlock",
            ResultCode::BadObjectState => "BadObjectState",
            ResultCode::QueueOverflow => "QueueOverflow",
            ResultCode::Abandoned => "Abandoned",
            ResultCode::Interrupted => "Interrupted",
            ResultCode::Timeout => "Timeout",
        }
    }
}

/// Error type of a kernel operation; the variants carry the same numeric
/// values as the corresponding [`ResultCode`]s.
#[derive(Debug, Clone, Copy, PartialEq, Eq, Structural, Hash)]
pub enum ActivateTaskError {
    NoAccess,
    BadContext,
    QueueOverflow,
}

impl ActivateTaskError {
    /// The name of the error's variant.
    pub open spec fn name_spec(self) -> Seq<char> {
        match self {
            ActivateTaskError::NoAccess => "NoAccess"@,
            ActivateTaskError::BadContext => "BadContext"@,
            ActivateTaskError::QueueOverflow => "QueueOverflow"@,
        }
    }

    /// Every error converts to the result code of the same name.
    pub proof fn lemma_result_code_has_same_name(self)
        ensures
            self.result_code_spec().name_spec() == self.name_spec(),
            self.result_code_spec().value_spec() < 0,
    {
    }

    /// The result code of the error.
    pub open spec fn result_code_spec(self) -> ResultCode {
        match self {
            ActivateTaskError::NoAccess => ResultCode::NoAccess,
            ActivateTaskError::BadContext => ResultCode::BadContext,
            ActivateTaskError::QueueOverflow => ResultCode::QueueOverflow,
        }
    }

    /// The result code of the error; it always represents a failure.
    pub fn to_result_code(self) -> (r: ResultCode)
        ensures
            r == self.result_code_spec(),
            r.name_spec() == self.name_spec(),
            r.value_spec() < 0,
    {
        match self {
            ActivateTaskError::NoAccess => ResultCode::NoAccess,
            ActivateTaskError::BadContext => ResultCode::BadContext,
            ActivateTaskError::QueueOverflow => ResultCode::QueueOverflow,
        }
    }

    /// The result code of an outcome: `Success` for `Ok`, the error's code
    /// otherwise.
    pub fn result_to_result_code(x: Result<(), ActivateTaskError>) -> (r: ResultCode)
        ensures
            r == match x {
                Ok(()) => ResultCode::Success,
                Err(e) => e.result_code_spec(),
            },
    {
        match x {
            Ok(()) => ResultCode::Success,
            Err(e) => e.to_result_code(),
        }
    }
}

/// Error type of a kernel operation; the variants carry the same numeric
/// values as the corresponding [`ResultCode`]s.
#[derive(Debug, Clone, Copy, PartialEq, Eq, Structural, Hash)]
pub enum GetCurrentTaskError {
    BadContext,
}

impl GetCurrentTaskError {
    /// The name of the error's variant.
    pub open spec fn name_spec(self) -> Seq<char> {
        match self {
            GetCurrentTaskError::BadContext => "BadContext"@,
        }
    }

    /// Every error converts to the result code of the same name.
    pub proof fn lemma_result_code_has_same_name(self)
        ensures
            self.result_code_spec().name_spec() == self.name_spec(),
            self.result_code_spec().value_spec() < 0,
    {
    }

    /// The result code of the error.
    pub open spec fn result_code_spec(self) -> ResultCode {
        match self {
            GetCurrentTaskError::BadContext => ResultCode::BadContext,
        }
    }

    /// The result code of the error; it always represents a failure.
    pub fn to_result_code(self) -> (r: ResultCode)
        ensures
            r == self.result_code_spec(),
            r.name_spec() == self.name_spec(),
            r.value_spec() < 0,
    {
        match self {
            GetCurrentTaskError::BadContext => ResultCode::BadContext,
        }
    }

    /// The result code of an outcome: `Success` for `Ok`, the error's code
    /// otherwise.
    pub fn result_to_result_code(x: Result<(), GetCurrentTaskError>) -> (r: ResultCode)
        ensures
            r == match x {
                Ok(()) => ResultCode::Success,
                Err(e) => e.result_code_spec(),
            },
    {
        match x {
            Ok(()) => ResultCode::Success,
            Err(e) => e.to_result_code(),
        }
    }
}

/// Error type of a kernel operation; the variants carry the same numeric
/// values as the corresponding [`ResultCode`]s.
#[derive(Debug, Clone, Copy, PartialEq, Eq, Structural, Hash)]
pub enum InterruptTaskError {
    NoAccess,
    BadContext,
    BadObjectState,
}

impl InterruptTaskError {
    /// The name of the error's variant.
    pub open spec fn name_spec(self) -> Seq<char> {
        match self {
            InterruptTaskError::NoAccess => "NoAccess"@,
            InterruptTaskError::BadContext => "BadContext"@,
            InterruptTaskError::BadObjectState => "BadObjectState"@,
        }
    }

    /// Every error converts to the result code of the same name.
    pub proof fn lemma_result_code_has_same_name(self)
        ensures
            self.result_code_spec().name_spec() == self.name_spec(),
            self.result_code_spec().value_spec() < 0,
    {
    }

    /// The result code of the error.
    pub open spec fn result_code_spec(self) -> ResultCode {
        match self {
            InterruptTaskError::NoAccess => ResultCode::NoAccess,
            InterruptTaskError::BadContext => ResultCode::BadContext,
            InterruptTaskError::BadObjectState => ResultCode::BadObjectState,
        }
    }

    /// The result code of the error; it always represents a failure.
    pub fn to_result_code(self) -> (r: ResultCode)
        ensures
            r == self.result_code_spec(),
            r.name_spec() == self.name_spec(),
            r.value_spec() < 0,
    {
        match self {
            InterruptTaskError::NoAccess => ResultCode::NoAccess,
            InterruptTaskError::BadContext => ResultCode::BadContext,
            InterruptTaskError::BadObjectState => ResultCode::BadObjectState,
        }
    }

    /// The result code of an outcome: `Success` for `Ok`, the error's code
    /// otherwise.
    pub fn result_to_result_code(x: Result<(), InterruptTaskError>) -> (r: ResultCode)
        ensures
            r == match x {
                Ok(()) => ResultCode::Success,
                Err(e) => e.result_code_spec(),
            },
    {
        match x {
            Ok(()) => ResultCode::Success,
            Err(e) => e.to_result_code(),
        }
    }
}

/// Error type of a kernel operation; the variants carry the same numeric
/// values as the corresponding [`ResultCode`]s.
#[derive(Debug, Clone, Copy, PartialEq, Eq, Structural, Hash)]
pub enum SetTaskPriorityError {
    NoAccess,
    BadContext,
    BadParam,
    BadObjectState,
}

impl SetTaskPriorityError {
    /// The name of the error's variant.
    pub open spec fn name_spec(self) -> Seq<char> {
        match self {
            SetTaskPriorityError::NoAccess => "NoAccess"@,
            SetTaskPriorityError::BadContext => "BadContext"@,
            SetTaskPriorityError::BadParam => "BadParam"@,
            SetTaskPriorityError::BadObjectState => "BadObjectState"@,
        }
    }

    /// Every error converts to the result code of the same name.
    pub proof fn lemma_result_code_has_same_name(self)
        ensures
            self.result_code_spec().name_spec() == self.name_spec(),
            self.result_code_spec().value_spec() < 0,
    {
    }

    /// The result code of the error.
    pub open spec fn result_code_spec(self) -> ResultCode {
        match self {
            SetTaskPriorityError::NoAccess => ResultCode::NoAccess,
            SetTaskPriorityError::BadContext => ResultCode::BadContext,
            SetTaskPriorityError::BadParam => ResultCode::BadParam,
            SetTaskPriorityError::BadObjectState => ResultCode::BadObjectState,
        }
    }

    /// The result code of the error; it always represents a failure.
    pub fn to_result_code(self) -> (r: ResultCode)
        ensures
            r == self.result_code_spec(),
            r.name_spec() == self.name_spec(),
            r.value_spec() < 0,
    {
        match self {
            SetTaskPriorityError::NoAccess => ResultCode::NoAccess,
            SetTaskPriorityError::BadContext => ResultCode::BadContext,
            SetTaskPriorityError::BadParam => ResultCode::BadParam,
            SetTaskPriorityError::BadObjectState => ResultCode::BadObjectState,
        }
    }

    /// The result code of an outcome: `Success` for `Ok`, the error's code
    /// otherwise.
    pub fn result_to_result_code(x: Result<(), SetTaskPriorityError>) -> (r: ResultCode)
        ensures
            r == match x {
                Ok(()) => ResultCode::Success,
                Err(e) => e.result_code_spec(),
            },
    {
        match x {
            Ok(()) => ResultCode::Success,
            Err(e) => e.to_result_code(),
        }
    }
}

/// Error type of a kernel operation; the variants carry the same numeric
/// values as the corresponding [`ResultCode`]s.
#[derive(Debug, Clone, Copy, PartialEq, Eq, Structural, Hash)]
pub enum GetTaskPriorityError {
    NoAccess,
    BadContext,
    BadObjectState,
}

impl GetTaskPriorityError {
    /// The name of the error's variant.
    pub open spec fn name_spec(self) -> Seq<char> {
        match self {
            GetTaskPriorityError::NoAccess => "NoAccess"@,
            GetTaskPriorityError::BadContext => "BadContext"@,
            GetTaskPriorityError::BadObjectState => "BadObjectState"@,
        }
    }

    /// Every error converts to the result code of the same name.
    pub proof fn lemma_result_code_has_same_name(self)
        ensures
            self.result_code_spec().name_spec() == self.name_spec(),
            self.result_code_spec().value_spec() < 0,
    {
    }

    /// The result code of the error.
    pub open spec fn result_code_spec(self) -> ResultCode {
        match self {
            GetTaskPriorityError::NoAccess => ResultCode::NoAccess,
            GetTaskPriorityError::BadContext => ResultCode::BadContext,
            GetTaskPriorityError::BadObjectState => ResultCode::BadObjectState,
        }
    }

    /// The result code of the error; it always represents a failure.
    pub fn to_result_code(self) -> (r: ResultCode)
        ensures
            r == self.result_code_spec(),
            r.name_spec() == self.name_spec(),
            r.value_spec() < 0,
    {
        match self {
            GetTaskPriorityError::NoAccess => ResultCode::NoAccess,
            GetTaskPriorityError::BadContext => ResultCode::BadContext,
            GetTaskPriorityError::BadObjectState => ResultCode::BadObjectState,
        }
    }

    /// The result code of an outcome: `Success` for `Ok`, the error's code
    /// otherwise.
    pub fn result_to_result_code(x: Result<(), GetTaskPriorityError>) -> (r: ResultCode)
        ensures
            r == match x {
                Ok(()) => ResultCode::Success,
                Err(e) => e.result_code_spec(),
            },
    {
        match x {
            Ok(()) => ResultCode::Success,
            Err(e) => e.to_result_code(),
        }
    }
}

/// Error type of a kernel operation; the variants carry the same numeric
/// values as the corresponding [`ResultCode`]s.
#[derive(Debug, Clone, Copy, PartialEq, Eq, Structural, Hash)]
pub enum ExitTaskError {
    BadContext,
}

impl ExitTaskError {
    /// The name of the error's variant.
    pub open spec fn name_spec(self) -> Seq<char> {
        match self {
            ExitTaskError::BadContext => "BadContext"@,
        }
    }

    /// Every error converts to the result code of the same name.
    pub proof fn lemma_result_code_has_same_name(self)
        ensures
            self.result_code_spec().name_spec() == self.name_spec(),
            self.result_code_spec().value_spec() < 0,
    {
    }

    /// The result code of the error.
    pub open spec fn result_code_spec(self) -> ResultCode {
        match self {
            ExitTaskError::BadContext => ResultCode::BadContext,
        }
    }

    /// The result code of the error; it always represents a failure.
    pub fn to_result_code(self) -> (r: ResultCode)
        ensures
            r == self.result_code_spec(),
            r.name_spec() == self.name_spec(),
            r.value_spec() < 0,
    {
        match self {
            ExitTaskError::BadContext => ResultCode::BadContext,
        }
    }

    /// The result code of an outcome: `Success` for `Ok`, the error's code
    /// otherwise.
    pub fn result_to_result_code(x: Result<(), ExitTaskError>) -> (r: ResultCode)
        ensures
            r == match x {
                Ok(()) => ResultCode::Success,
                Err(e) => e.result_code_spec(),
            },
    {
        match x {
            Ok(()) => ResultCode::Success,
            Err(e) => e.to_result_code(),
        }
    }
}

/// Error type of a kernel operation; the variants carry the same numeric
/// values as the corresponding [`ResultCode`]s.
#[derive(Debug, Clone, Copy, PartialEq, Eq, Structural, Hash)]
pub enum CpuLockError {
    BadContext,
}

impl CpuLockError {
    /// The name of the error's variant.
    pub open spec fn name_spec(self) -> Seq<char> {
        match self {
            CpuLockError::BadContext => "BadContext"@,
        }
    }

    /// Every error converts to the result code of the same name.
    pub proof fn lemma_result_code_has_same_name(self)
        ensures
            self.result_code_spec().name_spec() == self.name_spec(),
            self.result_code_spec().value_spec() < 0,
    {
    }

    /// The result code of the error.
    pub open spec fn result_code_spec(self) -> ResultCode {
        match self {
            CpuLockError::BadContext => ResultCode::BadContext,
        }
    }

    /// The result code of the error; it always represents a failure.
    pub fn to_result_code(self) -> (r: ResultCode)
        ensures
            r == self.result_code_spec(),
            r.name_spec() == self.name_spec(),
            r.value_spec() < 0,
    {
        match self {
            CpuLockError::BadContext => ResultCode::BadContext,
        }
    }

    /// The result code of an outcome: `Success` for `Ok`, the error's code
    /// otherwise.
    pub fn result_to_result_code(x: Result<(), CpuLockError>) -> (r: ResultCode)
        ensures
            r == match x {
                Ok(()) => ResultCode::Success,
                Err(e) => e.result_code_spec(),
            },
    {
        match x {
            Ok(()) => ResultCode::Success,
            Err(e) => e.to_result_code(),
        }
    }
}

/// Error type of a kernel operation; the variants carry the same numeric
/// values as the corresponding [`ResultCode`]s.
#[derive(Debug, Clone, Copy, PartialEq, Eq, Structural, Hash)]
pub enum BoostPriorityError {
    BadContext,
}

impl BoostPriorityError {
    /// The name of the error's variant.
    pub open spec fn name_spec(self) -> Seq<char> {
        match self {
            BoostPriorityError::BadContext => "BadContext"@,
        }
    }

    /// Every error converts to the result code of the same name.
    pub proof fn lemma_result_code_has_same_name(self)
        ensures
            self.result_code_spec().name_spec() == self.name_spec(),
            self.result_code_spec().value_spec() < 0,
    {
    }

    /// The result code of the error.
    pub open spec fn result_code_spec(self) -> ResultCode {
        match self {
            BoostPriorityError::BadContext => ResultCode::BadContext,
        }
    }

    /// The result code of the error; it always represents a failure.
    pub fn to_result_code(self) -> (r: ResultCode)
        ensures
            r == self.result_code_spec(),
            r.name_spec() == self.name_spec(),
            r.value_spec() < 0,
    {
        match self {
            BoostPriorityError::BadContext => ResultCode::BadContext,
        }
    }

    /// The result code of an outcome: `Success` for `Ok`, the error's code
    /// otherwise.
    pub fn result_to_result_code(x: Result<(), BoostPriorityError>) -> (r: ResultCode)
        ensures
            r == match x {
                Ok(()) => ResultCode::Success,
                Err(e) => e.result_code_spec(),
            },
    {
        match x {
            Ok(()) => ResultCode::Success,
            Err(e) => e.to_result_code(),
        }
    }
}

/// Error type of a kernel operation; the variants carry the same numeric
/// values as the corresponding [`ResultCode`]s.
#[derive(Debug, Clone, Copy, PartialEq, Eq, Structural, Hash)]
pub enum TimeError {
    BadContext,
}

impl TimeError {
    /// The name of the error's variant.
    pub open spec fn name_spec(self) -> Seq<char> {
        match self {
            TimeError::BadContext => "BadContext"@,
        }
    }

    /// Every error converts to the result code of the same name.
    pub proof fn lemma_result_code_has_same_name(self)
        ensures
            self.result_code_spec().name_spec() == self.name_spec(),
            self.result_code_spec().value_spec() < 0,
    {
    }

    /// The result code of the error.
    pub open spec fn result_code_spec(self) -> ResultCode {
        match self {
            TimeError::BadContext => ResultCode::BadContext,
        }
    }

    /// The result code of the error; it always represents a failure.
    pub fn to_result_code(self) -> (r: ResultCode)
        ensures
            r == self.result_code_spec(),
            r.name_spec() == self.name_spec(),
            r.value_spec() < 0,
    {
        match self {
            TimeError::BadContext => ResultCode::BadContext,
        }
    }

    /// The result code of an outcome: `Success` for `Ok`, the error's code
    /// otherwise.
    pub fn result_to_result_code(x: Result<(), TimeError>) -> (r: ResultCode)
        ensures
            r == match x {
                Ok(()) => ResultCode::Success,
                Err(e) => e.result_code_spec(),
            },
    {
        match x {
            Ok(()) => ResultCode::Success,
            Err(e) => e.to_result_code(),
        }
    }
}

/// Error type of a kernel operation; the variants carry the same numeric
/// values as the corresponding [`ResultCode`]s.
#[derive(Debug, Clone, Copy, PartialEq, Eq, Structural, Hash)]
pub enum AdjustTimeError {
    BadContext,
    BadObjectState,
}

impl AdjustTimeError {
    /// The name of the error's variant.
    pub open spec fn name_spec(self) -> Seq<char> {
        match self {
            AdjustTimeError::BadContext => "BadContext"@,
            AdjustTimeError::BadObjectState => "BadObjectState"@,
        }
    }

    /// Every error converts to the result code of the same name.
    pub proof fn lemma_result_code_has_same_name(self)
        ensures
            self.result_code_spec().name_spec() == self.name_spec(),
            self.result_code_spec().value_spec() < 0,
    {
    }

    /// The result code of the error.
    pub open spec fn result_code_spec(self) -> ResultCode {
        match self {
            AdjustTimeError::BadContext => ResultCode::BadContext,
            AdjustTimeError::BadObjectState => ResultCode::BadObjectState,
        }
    }

    /// The result code of the error; it always represents a failure.
    pub fn to_result_code(self) -> (r: ResultCode)
        ensures
            r == self.result_code_spec(),
            r.name_spec() == self.name_spec(),
            r.value_spec() < 0,
    {
        match self {
            AdjustTimeError::BadContext => ResultCode::BadContext,
            AdjustTimeError::BadObjectState => ResultCode::BadObjectState,
        }
    }

    /// The result code of an outcome: `Success` for `Ok`, the error's code
    /// otherwise.
    pub fn result_to_result_code(x: Result<(), AdjustTimeError>) -> (r: ResultCode)
        ensures
            r == match x {
                Ok(()) => ResultCode::Success,
                Err(e) => e.result_code_spec(),
            },
    {
        match x {
            Ok(()) => ResultCode::Success,
            Err(e) => e.to_result_code(),
        }
    }
}

/// Error type of a kernel operation; the variants carry the same numeric
/// values as the corresponding [`ResultCode`]s.
#[derive(Debug, Clone, Copy, PartialEq, Eq, Structural, Hash)]
pub enum WaitError {
    Interrupted,
}

impl WaitError {
    /// The name of the error's variant.
    pub open spec fn name_spec(self) -> Seq<char> {
        match self {
            WaitError::Interrupted => "Interrupted"@,
        }
    }

    /// Every error converts to the result code of the same name.
    pub proof fn lemma_result_code_has_same_name(self)
        ensures
            self.result_code_spec().name_spec() == self.name_spec(),
            self.result_code_spec().value_spec() < 0,
    {
    }

    /// The result code of the error.
    pub open spec fn result_code_spec(self) -> ResultCode {
        match self {
            WaitError::Interrupted => ResultCode::Interrupted,
        }
    }

    /// The result code of the error; it always represents a failure.
    pub fn to_result_code(self) -> (r: ResultCode)
        ensures
            r == self.result_code_spec(),
            r.name_spec() == self.name_spec(),
            r.value_spec() < 0,
    {
        match self {
            WaitError::Interrupted => ResultCode::Interrupted,
        }
    }

    /// The result code of an outcome: `Success` for `Ok`, the error's code
    /// otherwise.
    pub fn result_to_result_code(x: Result<(), WaitError>) -> (r: ResultCode)
        ensures
            r == match x {
                Ok(()) => ResultCode::Success,
                Err(e) => e.result_code_spec(),
            },
    {
        match x {
            Ok(()) => ResultCode::Success,
            Err(e) => e.to_result_code(),
        }
    }
}

/// Error type of a kernel operation; the variants carry the same numeric
/// values as the corresponding [`ResultCode`]s.
#[derive(Debug, Clone, Copy, PartialEq, Eq, Structural, Hash)]
pub enum WaitTimeoutError {
    Interrupted,
    Timeout,
}

impl WaitTimeoutError {
    /// The name of the error's variant.
    pub open spec fn name_spec(self) -> Seq<char> {
        match self {
            WaitTimeoutError::Interrupted => "Interrupted"@,
            WaitTimeoutError::Timeout => "Timeout"@,
        }
    }

    /// Every error converts to the result code of the same name.
    pub proof fn lemma_result_code_has_same_name(self)
        ensures
            self.result_code_spec().name_spec() == self.name_spec(),
            self.result_code_spec().value_spec() < 0,
    {
    }

    /// The result code of the error.
    pub open spec fn result_code_spec(self) -> ResultCode {
        match self {
            WaitTimeoutError::Interrupted => ResultCode::Interrupted,
            WaitTimeoutError::Timeout => ResultCode::Timeout,
        }
    }

    /// The result code of the error; it always represents a failure.
    pub fn to_result_code(self) -> (r: ResultCode)
        ensures
            r == self.result_code_spec(),
            r.name_spec() == self.name_spec(),
            r.value_spec() < 0,
    {
        match self {
            WaitTimeoutError::Interrupted => ResultCode::Interrupted,
            WaitTimeoutError::Timeout => ResultCode::Timeout,
        }
    }

    /// The result code of an outcome: `Success` for `Ok`, the error's code
    /// otherwise.
    pub fn result_to_result_code(x: Result<(), WaitTimeoutError>) -> (r: ResultCode)
        ensures
            r == match x {
                Ok(()) => ResultCode::Success,
                Err(e) => e.result_code_spec(),
            },
    {
        match x {
            Ok(()) => ResultCode::Success,
            Err(e) => e.to_result_code(),
        }
    }

    /// Convert from [`WaitError`], whose variants are all variants of this type.
    pub fn from_wait_error(x: WaitError) -> (r: Self)
        ensures
            r.result_code_spec() == x.result_code_spec(),
    {
        match x {
            WaitError::Interrupted => WaitTimeoutError::Interrupted,
        }
    }
}

/// Error type of a kernel operation; the variants carry the same numeric
/// values as the corresponding [`ResultCode`]s.
#[derive(Debug, Clone, Copy, PartialEq, Eq, Structural, Hash)]
pub enum ParkError {
    BadContext,
    Interrupted,
}

impl ParkError {
    /// The name of the error's variant.
    pub open spec fn name_spec(self) -> Seq<char> {
        match self {
            ParkError::BadContext => "BadContext"@,
            ParkError::Interrupted => "Interrupted"@,
        }
    }

    /// Every error converts to the result code of the same name.
    pub proof fn lemma_result_code_has_same_name(self)
        ensures
            self.result_code_spec().name_spec() == self.name_spec(),
            self.result_code_spec().value_spec() < 0,
    {
    }

    /// The result code of the error.
    pub open spec fn result_code_spec(self) -> ResultCode {
        match self {
            ParkError::BadContext => ResultCode::BadContext,
            ParkError::Interrupted => ResultCode::Interrupted,
        }
    }

    /// The result code of the error; it always represents a failure.
    pub fn to_result_code(self) -> (r: ResultCode)
        ensures
            r == self.result_code_spec(),
            r.name_spec() == self.name_spec(),
            r.value_spec() < 0,
    {
        match self {
            ParkError::BadContext => ResultCode::BadContext,
            ParkError::Interrupted => ResultCode::Interrupted,
        }
    }

    /// The result code of an outcome: `Success` for `Ok`, the error's code
    /// otherwise.
    pub fn result_to_result_code(x: Result<(), ParkError>) -> (r: ResultCode)
        ensures
            r == match x {
                Ok(()) => ResultCode::Success,
                Err(e) => e.result_code_spec(),
            },
    {
        match x {
            Ok(()) => ResultCode::Success,
            Err(e) => e.to_result_code(),
        }
    }

    /// Convert from [`WaitError`], whose variants are all variants of this type.
    pub fn from_wait_error(x: WaitError) -> (r: Self)
        ensures
            r.result_code_spec() == x.result_code_spec(),
    {
        match x {
            WaitError::Interrupted => ParkError::Interrupted,
        }
    }
}

/// Error type of a kernel operation; the variants carry the same numeric
/// values as the corresponding [`ResultCode`]s.
#[derive(Debug, Clone, Copy, PartialEq, Eq, Structural, Hash)]
pub enum ParkTimeoutError {
    BadContext,
    Interrupted,
    Timeout,
    BadParam,
}

impl ParkTimeoutError {
    /// The name of the error's variant.
    pub open spec fn name_spec(self) -> Seq<char> {
        match self {
            ParkTimeoutError::BadContext => "BadContext"@,
            ParkTimeoutError::Interrupted => "Interrupted"@,
            ParkTimeoutError::Timeout => "Timeout"@,
            ParkTimeoutError::BadParam => "BadParam"@,
        }
    }

    /// Every error converts to the result code of the same name.
    pub proof fn lemma_result_code_has_same_name(self)
        ensures
            self.result_code_spec().name_spec() == self.name_spec(),
            self.result_code_spec().value_spec() < 0,
    {
    }

    /// The result code of the error.
    pub open spec fn result_code_spec(self) -> ResultCode {
        match self {
            ParkTimeoutError::BadContext => ResultCode::BadContext,
            ParkTimeoutError::Interrupted => ResultCode::Interrupted,
            ParkTimeoutError::Timeout => ResultCode::Timeout,
            ParkTimeoutError::BadParam => ResultCode::BadParam,
        }
    }

    /// The result code of the error; it always represents a failure.
    pub fn to_result_code(self) -> (r: ResultCode)
        ensures
            r == self.result_code_spec(),
            r.name_spec() == self.name_spec(),
            r.value_spec() < 0,
    {
        match self {
            ParkTimeoutError::BadContext => ResultCode::BadContext,
            ParkTimeoutError::Interrupted => ResultCode::Interrupted,
            ParkTimeoutError::Timeout => ResultCode::Timeout,
            ParkTimeoutError::BadParam => ResultCode::BadParam,
        }
    }

    /// The result code of an outcome: `Success` for `Ok`, the error's code
    /// otherwise.
    pub fn result_to_result_code(x: Result<(), ParkTimeoutError>) -> (r: ResultCode)
        ensures
            r == match x {
                Ok(()) => ResultCode::Success,
                Err(e) => e.result_code_spec(),
            },
    {
        match x {
            Ok(()) => ResultCode::Success,
            Err(e) => e.to_result_code(),
        }
    }

    /// Convert from [`WaitTimeoutError`], whose variants are all variants of this type.
    pub fn from_wait_timeout_error(x: WaitTimeoutError) -> (r: Self)
        ensures
            r.result_code_spec() == x.result_code_spec(),
    {
        match x {
            WaitTimeoutError::Interrupted => ParkTimeoutError::Interrupted,
            WaitTimeoutError::Timeout => ParkTimeoutError::Timeout,
        }
    }
}

/// Error type of a kernel operation; the variants carry the same numeric
/// values as the corresponding [`ResultCode`]s.
#[derive(Debug, Clone, Copy, PartialEq, Eq, Structural, Hash)]
pub enum UnparkError {
    BadContext,
    NoAccess,
    BadObjectState,
}

impl UnparkError {
    /// The name of the error's variant.
    pub open spec fn name_spec(self) -> Seq<char> {
        match self {
            UnparkError::BadContext => "BadContext"@,
            UnparkError::NoAccess => "NoAccess"@,
            UnparkError::BadObjectState => "BadObjectState"@,
        }
    }

    /// Every error converts to the result code of the same name.
    pub proof fn lemma_result_code_has_same_name(self)
        ensures
            self.result_code_spec().name_spec() == self.name_spec(),
            self.result_code_spec().value_spec() < 0,
    {
    }

    /// The result code of the error.
    pub open spec fn result_code_spec(self) -> ResultCode {
        match self {
            UnparkError::BadContext => ResultCode::BadContext,
            UnparkError::NoAccess => ResultCode::NoAccess,
            UnparkError::BadObjectState => ResultCode::BadObjectState,
        }
    }

    /// The result code of the error; it always represents a failure.
    pub fn to_result_code(self) -> (r: ResultCode)
        ensures
            r == self.result_code_spec(),
            r.name_spec() == self.name_spec(),
            r.value_spec() < 0,
    {
        match self {
            UnparkError::BadContext => ResultCode::BadContext,
            UnparkError::NoAccess => ResultCode::NoAccess,
            UnparkError::BadObjectState => ResultCode::BadObjectState,
        }
    }

    /// The result code of an outcome: `Success` for `Ok`, the error's code
    /// otherwise.
    pub fn result_to_result_code(x: Result<(), UnparkError>) -> (r: ResultCode)
        ensures
            r == match x {
                Ok(()) => ResultCode::Success,
                Err(e) => e.result_code_spec(),
            },
    {
        match x {
            Ok(()) => ResultCode::Success,
            Err(e) => e.to_result_code(),
        }
    }
}

/// Error type of a kernel operation; the variants carry the same numeric
/// values as the corresponding [`ResultCode`]s.
#[derive(Debug, Clone, Copy, PartialEq, Eq, Structural, Hash)]
pub enum UnparkExactError {
    BadContext,
    NoAccess,
    QueueOverflow,
    BadObjectState,
}

impl UnparkExactError {
    /// The name of the error's variant.
    pub open spec fn name_spec(self) -> Seq<char> {
        match self {
            UnparkExactError::BadContext => "BadContext"@,
            UnparkExactError::NoAccess => "NoAccess"@,
            UnparkExactError::QueueOverflow => "QueueOverflow"@,
            UnparkExactError::BadObjectState => "BadObjectState"@,
        }
    }

    /// Every error converts to the result code of the same name.
    pub proof fn lemma_result_code_has_same_name(self)
        ensures
            self.result_code_spec().name_spec() == self.name_spec(),
            self.result_code_spec().value_spec() < 0,
    {
    }

    /// The result code of the error.
    pub open spec fn result_code_spec(self) -> ResultCode {
        match self {
            UnparkExactError::BadContext => ResultCode::BadContext,
            UnparkExactError::NoAccess => ResultCode::NoAccess,
            UnparkExactError::QueueOverflow => ResultCode::QueueOverflow,
            UnparkExactError::BadObjectState => ResultCode::BadObjectState,
        }
    }

    /// The result code of the error; it always represents a failure.
    pub fn to_result_code(self) -> (r: ResultCode)
        ensures
            r == self.result_code_spec(),
            r.name_spec() == self.name_spec(),
            r.value_spec() < 0,
    {
        match self {
            UnparkExactError::BadContext => ResultCode::BadContext,
            UnparkExactError::NoAccess => ResultCode::NoAccess,
            UnparkExactError::QueueOverflow => ResultCode::QueueOverflow,
            UnparkExactError::BadObjectState => ResultCode::BadObjectState,
        }
    }

    /// The result code of an outcome: `Success` for `Ok`, the error's code
    /// otherwise.
    pub fn result_to_result_code(x: Result<(), UnparkExactError>) -> (r: ResultCode)
        ensures
            r == match x {
                Ok(()) => ResultCode::Success,
                Err(e) => e.result_code_spec(),
            },
    {
        match x {
            Ok(()) => ResultCode::Success,
            Err(e) => e.to_result_code(),
        }
    }
}

/// Error type of a kernel operation; the variants carry the same numeric
/// values as the corresponding [`ResultCode`]s.
#[derive(Debug, Clone, Copy, PartialEq, Eq, Structural, Hash)]
pub enum SleepError {
    BadContext,
    Interrupted,
    BadParam,
}

impl SleepError {
    /// The name of the error's variant.
    pub open spec fn name_spec(self) -> Seq<char> {
        match self {
            SleepError::BadContext => "BadContext"@,
            SleepError::Interrupted => "Interrupted"@,
            SleepError::BadParam => "BadParam"@,
        }
    }

    /// Every error converts to the result code of the same name.
    pub proof fn lemma_result_code_has_same_name(self)
        ensures
            self.result_code_spec().name_spec() == self.name_spec(),
            self.result_code_spec().value_spec() < 0,
    {
    }

    /// The result code of the error.
    pub open spec fn result_code_spec(self) -> ResultCode {
        match self {
            SleepError::BadContext => ResultCode::BadContext,
            SleepError::Interrupted => ResultCode::Interrupted,
            SleepError::BadParam => ResultCode::BadParam,
        }
    }

    /// The result code of the error; it always represents a failure.
    pub fn to_result_code(self) -> (r: ResultCode)
        ensures
            r == self.result_code_spec(),
            r.name_spec() == self.name_spec(),
            r.value_spec() < 0,
    {
        match self {
            SleepError::BadContext => ResultCode::BadContext,
            SleepError::Interrupted => ResultCode::Interrupted,
            SleepError::BadParam => ResultCode::BadParam,
        }
    }

    /// The result code of an outcome: `Success` for `Ok`, the error's code
    /// otherwise.
    pub fn result_to_result_code(x: Result<(), SleepError>) -> (r: ResultCode)
        ensures
            r == match x {
                Ok(()) => ResultCode::Success,
                Err(e) => e.result_code_spec(),
            },
    {
        match x {
            Ok(()) => ResultCode::Success,
            Err(e) => e.to_result_code(),
        }
    }
}

/// Error type of a kernel operation; the variants carry the same numeric
/// values as the corresponding [`ResultCode`]s.
#[derive(Debug, Clone, Copy, PartialEq, Eq, Structural, Hash)]
pub enum UpdateEventGroupError {
    NoAccess,
    BadContext,
}

impl UpdateEventGroupError {
    /// The name of the error's variant.
    pub open spec fn name_spec(self) -> Seq<char> {
        match self {
            UpdateEventGroupError::NoAccess => "NoAccess"@,
            UpdateEventGroupError::BadContext => "BadContext"@,
        }
    }

    /// Every error converts to the result code of the same name.
    pub proof fn lemma_result_code_has_same_name(self)
        ensures
            self.result_code_spec().name_spec() == self.name_spec(),
            self.result_code_spec().value_spec() < 0,
    {
    }

    /// The result code of the error.
    pub open spec fn result_code_spec(self) -> ResultCode {
        match self {
            UpdateEventGroupError::NoAccess => ResultCode::NoAccess,
            UpdateEventGroupError::BadContext => ResultCode::BadContext,
        }
    }

    /// The result code of the error; it always represents a failure.
    pub fn to_result_code(self) -> (r: ResultCode)
        ensures
            r == self.result_code_spec(),
            r.name_spec() == self.name_spec(),
            r.value_spec() < 0,
    {
        match self {
            UpdateEventGroupError::NoAccess => ResultCode::NoAccess,
            UpdateEventGroupError::BadContext => ResultCode::BadContext,
        }
    }

    /// The result code of an outcome: `Success` for `Ok`, the error's code
    /// otherwise.
    pub fn result_to_result_code(x: Result<(), UpdateEventGroupError>) -> (r: ResultCode)
        ensures
            r == match x {
                Ok(()) => ResultCode::Success,
                Err(e) => e.result_code_spec(),
            },
    {
        match x {
            Ok(()) => ResultCode::Success,
            Err(e) => e.to_result_code(),
        }
    }
}

/// Error type of a kernel operation; the variants carry the same numeric
/// values as the corresponding [`ResultCode`]s.
#[derive(Debug, Clone, Copy, PartialEq, Eq, Structural, Hash)]
pub enum GetEventGroupError {
    NoAccess,
    BadContext,
}

impl GetEventGroupError {
    /// The name of the error's variant.
    pub open spec fn name_spec(self) -> Seq<char> {
        match self {
            GetEventGroupError::NoAccess => "NoAccess"@,
            GetEventGroupError::BadContext => "BadContext"@,
        }
    }

    /// Every error converts to the result code of the same name.
    pub proof fn lemma_result_code_has_same_name(self)
        ensures
            self.result_code_spec().name_spec() == self.name_spec(),
            self.result_code_spec().value_spec() < 0,
    {
    }

    /// The result code of the error.
    pub open spec fn result_code_spec(self) -> ResultCode {
        match self {
            GetEventGroupError::NoAccess => ResultCode::NoAccess,
            GetEventGroupError::BadContext => ResultCode::BadContext,
        }
    }

    /// The result code of the error; it always represents a failure.
    pub fn to_result_code(self) -> (r: ResultCode)
        ensures
            r == self.result_code_spec(),
            r.name_spec() == self.name_spec(),
            r.value_spec() < 0,
    {
        match self {
            GetEventGroupError::NoAccess => ResultCode::NoAccess,
            GetEventGroupError::BadContext => ResultCode::BadContext,
        }
    }

    /// The result code of an outcome: `Success` for `Ok`, the error's code
    /// otherwise.
    pub fn result_to_result_code(x: Result<(), GetEventGroupError>) -> (r: ResultCode)
        ensures
            r == match x {
                Ok(()) => ResultCode::Success,
                Err(e) => e.result_code_spec(),
            },
    {
        match x {
            Ok(()) => ResultCode::Success,
            Err(e) => e.to_result_code(),
        }
    }
}

/// Error type of a kernel operation; the variants carry the same numeric
/// values as the corresponding [`ResultCode`]s.
#[derive(Debug, Clone, Copy, PartialEq, Eq, Structural, Hash)]
pub enum PollEventGroupError {
    NoAccess,
    BadContext,
    Timeout,
}

impl PollEventGroupError {
    /// The name of the error's variant.
    pub open spec fn name_spec(self) -> Seq<char> {
        match self {
            PollEventGroupError::NoAccess => "NoAccess"@,
            PollEventGroupError::BadContext => "BadContext"@,
            PollEventGroupError::Timeout => "Timeout"@,
        }
    }

    /// Every error converts to the result code of the same name.
    pub proof fn lemma_result_code_has_same_name(self)
        ensures
            self.result_code_spec().name_spec() == self.name_spec(),
            self.result_code_spec().value_spec() < 0,
    {
    }

    /// The result code of the error.
    pub open spec fn result_code_spec(self) -> ResultCode {
        match self {
            PollEventGroupError::NoAccess => ResultCode::NoAccess,
            PollEventGroupError::BadContext => ResultCode::BadContext,
            PollEventGroupError::Timeout => ResultCode::Timeout,
        }
    }

    /// The result code of the error; it always represents a failure.
    pub fn to_result_code(self) -> (r: ResultCode)
        ensures
            r == self.result_code_spec(),
            r.name_spec() == self.name_spec(),
            r.value_spec() < 0,
    {
        match self {
            PollEventGroupError::NoAccess => ResultCode::NoAccess,
            PollEventGroupError::BadContext => ResultCode::BadContext,
            PollEventGroupError::Timeout => ResultCode::Timeout,
        }
    }

    /// The result code of an outcome: `Success` for `Ok`, the error's code
    /// otherwise.
    pub fn result_to_result_code(x: Result<(), PollEventGroupError>) -> (r: ResultCode)
        ensures
            r == match x {
                Ok(()) => ResultCode::Success,
                Err(e) => e.result_code_spec(),
            },
    {
        match x {
            Ok(()) => ResultCode::Success,
            Err(e) => e.to_result_code(),
        }
    }
}

/// Error type of a kernel operation; the variants carry the same numeric
/// values as the corresponding [`ResultCode`]s.
#[derive(Debug, Clone, Copy, PartialEq, Eq, Structural, Hash)]
pub enum WaitEventGroupError {
    NoAccess,
    BadContext,
    Interrupted,
}

impl WaitEventGroupError {
    /// The name of the error's variant.
    pub open spec fn name_spec(self) -> Seq<char> {
        match self {
            WaitEventGroupError::NoAccess => "NoAccess"@,
            WaitEventGroupError::BadContext => "BadContext"@,
            WaitEventGroupError::Interrupted => "Interrupted"@,
        }
    }

    /// Every error converts to the result code of the same name.
    pub proof fn lemma_result_code_has_same_name(self)
        ensures
            self.result_code_spec().name_spec() == self.name_spec(),
            self.result_code_spec().value_spec() < 0,
    {
    }

    /// The result code of the error.
    pub open spec fn result_code_spec(self) -> ResultCode {
        match self {
            WaitEventGroupError::NoAccess => ResultCode::NoAccess,
            WaitEventGroupError::BadContext => ResultCode::BadContext,
            WaitEventGroupError::Interrupted => ResultCode::Interrupted,
        }
    }

    /// The result code of the error; it always represents a failure.
    pub fn to_result_code(self) -> (r: ResultCode)
        ensures
            r == self.result_code_spec(),
            r.name_spec() == self.name_spec(),
            r.value_spec() < 0,
    {
        match self {
            WaitEventGroupError::NoAccess => ResultCode::NoAccess,
            WaitEventGroupError::BadContext => ResultCode::BadContext,
            WaitEventGroupError::Interrupted => ResultCode::Interrupted,
        }
    }

    /// The result code of an outcome: `Success` for `Ok`, the error's code
    /// otherwise.
    pub fn result_to_result_code(x: Result<(), WaitEventGroupError>) -> (r: ResultCode)
        ensures
            r == match x {
                Ok(()) => ResultCode::Success,
                Err(e) => e.result_code_spec(),
            },
    {
        match x {
            Ok(()) => ResultCode::Success,
            Err(e) => e.to_result_code(),
        }
    }

    /// Convert from [`WaitError`], whose variants are all variants of this type.
    pub fn from_wait_error(x: WaitError) -> (r: Self)
        ensures
            r.result_code_spec() == x.result_code_spec(),
    {
        match x {
            WaitError::Interrupted => WaitEventGroupError::Interrupted,
        }
    }
}

/// Error type of a kernel operation; the variants carry the same numeric
/// values as the corresponding [`ResultCode`]s.
#[derive(Debug, Clone, Copy, PartialEq, Eq, Structural, Hash)]
pub enum WaitEventGroupTimeoutError {
    NoAccess,
    BadContext,
    Interrupted,
    Timeout,
    BadParam,
}

impl WaitEventGroupTimeoutError {
    /// The name of the error's variant.
    pub open spec fn name_spec(self) -> Seq<char> {
        match self {
            WaitEventGroupTimeoutError::NoAccess => "NoAccess"@,
            WaitEventGroupTimeoutError::BadContext => "BadContext"@,
            WaitEventGroupTimeoutError::Interrupted => "Interrupted"@,
            WaitEventGroupTimeoutError::Timeout => "Timeout"@,
            WaitEventGroupTimeoutError::BadParam => "BadParam"@,
        }
    }

    /// Every error converts to the result code of the same name.
    pub proof fn lemma_result_code_has_same_name(self)
        ensures
            self.result_code_spec().name_spec() == self.name_spec(),
            self.result_code_spec().value_spec() < 0,
    {
    }

    /// The result code of the error.
    pub open spec fn result_code_spec(self) -> ResultCode {
        match self {
            WaitEventGroupTimeoutError::NoAccess => ResultCode::NoAccess,
            WaitEventGroupTimeoutError::BadContext => ResultCode::BadContext,
            WaitEventGroupTimeoutError::Interrupted => ResultCode::Interrupted,
            WaitEventGroupTimeoutError::Timeout => ResultCode::Timeout,
            WaitEventGroupTimeoutError::BadParam => ResultCode::BadParam,
        }
    }

    /// The result code of the error; it always represents a failure.
    pub fn to_result_code(self) -> (r: ResultCode)
        ensures
            r == self.result_code_spec(),
            r.name_spec() == self.name_spec(),
            r.value_spec() < 0,
    {
        match self {
            WaitEventGroupTimeoutError::NoAccess => ResultCode::NoAccess,
            WaitEventGroupTimeoutError::BadContext => ResultCode::BadContext,
            WaitEventGroupTimeoutError::Interrupted => ResultCode::Interrupted,
            WaitEventGroupTimeoutError::Timeout => ResultCode::Timeout,
            WaitEventGroupTimeoutError::BadParam => ResultCode::BadParam,
        }
    }

    /// The result code of an outcome: `Success` for `Ok`, the error's code
    /// otherwise.
    pub fn result_to_result_code(x: Result<(), WaitEventGroupTimeoutError>) -> (r: ResultCode)
        ensures
            r == match x {
                Ok(()) => ResultCode::Success,
                Err(e) => e.result_code_spec(),
            },
    {
        match x {
            Ok(()) => ResultCode::Success,
            Err(e) => e.to_result_code(),
        }
    }

    /// Convert from [`WaitTimeoutError`], whose variants are all variants of this type.
    pub fn from_wait_timeout_error(x: WaitTimeoutError) -> (r: Self)
        ensures
            r.result_code_spec() == x.result_code_spec(),
    {
        match x {
            WaitTimeoutError::Interrupted => WaitEventGroupTimeoutError::Interrupted,
            WaitTimeoutError::Timeout => WaitEventGroupTimeoutError::Timeout,
        }
    }
}

/// Error type of a kernel operation; the variants carry the same numeric
/// values as the corresponding [`ResultCode`]s.
#[derive(Debug, Clone, Copy, PartialEq, Eq, Structural, Hash)]
pub enum GetSemaphoreError {
    NoAccess,
    BadContext,
}

impl GetSemaphoreError {
    /// The name of the error's variant.
    pub open spec fn name_spec(self) -> Seq<char> {
        match self {
            GetSemaphoreError::NoAccess => "NoAccess"@,
            GetSemaphoreError::BadContext => "BadContext"@,
        }
    }

    /// Every error converts to the result code of the same name.
    pub proof fn lemma_result_code_has_same_name(self)
        ensures
            self.result_code_spec().name_spec() == self.name_spec(),
            self.result_code_spec().value_spec() < 0,
    {
    }

    /// The result code of the error.
    pub open spec fn result_code_spec(self) -> ResultCode {
        match self {
            GetSemaphoreError::NoAccess => ResultCode::NoAccess,
            GetSemaphoreError::BadContext => ResultCode::BadContext,
        }
    }

    /// The result code of the error; it always represents a failure.
    pub fn to_result_code(self) -> (r: ResultCode)
        ensures
            r == self.result_code_spec(),
            r.name_spec() == self.name_spec(),
            r.value_spec() < 0,
    {
        match self {
            GetSemaphoreError::NoAccess => ResultCode::NoAccess,
            GetSemaphoreError::BadContext => ResultCode::BadContext,
        }
    }

    /// The result code of an outcome: `Success` for `Ok`, the error's code
    /// otherwise.
    pub fn result_to_result_code(x: Result<(), GetSemaphoreError>) -> (r: ResultCode)
        ensures
            r == match x {
                Ok(()) => ResultCode::Success,
                Err(e) => e.result_code_spec(),
            },
    {
        match x {
            Ok(()) => ResultCode::Success,
            Err(e) => e.to_result_code(),
        }
    }
}

/// Error type of a kernel operation; the variants carry the same numeric
/// values as the corresponding [`ResultCode`]s.
#[derive(Debug, Clone, Copy, PartialEq, Eq, Structural, Hash)]
pub enum DrainSemaphoreError {
    NoAccess,
    BadContext,
}

impl DrainSemaphoreError {
    /// The name of the error's variant.
    pub open spec fn name_spec(self) -> Seq<char> {
        match self {
            DrainSemaphoreError::NoAccess => "NoAccess"@,
            DrainSemaphoreError::BadContext => "BadContext"@,
        }
    }

    /// Every error converts to the result code of the same name.
    pub proof fn lemma_result_code_has_same_name(self)
        ensures
            self.result_code_spec().name_spec() == self.name_spec(),
            self.result_code_spec().value_spec() < 0,
    {
    }

    /// The result code of the error.
    pub open spec fn result_code_spec(self) -> ResultCode {
        match self {
            DrainSemaphoreError::NoAccess => ResultCode::NoAccess,
            DrainSemaphoreError::BadContext => ResultCode::BadContext,
        }
    }

    /// The result code of the error; it always represents a failure.
    pub fn to_result_code(self) -> (r: ResultCode)
        ensures
            r == self.result_code_spec(),
            r.name_spec() == self.name_spec(),
            r.value_spec() < 0,
    {
        match self {
            DrainSemaphoreError::NoAccess => ResultCode::NoAccess,
            DrainSemaphoreError::BadContext => ResultCode::BadContext,
        }
    }

    /// The result code of an outcome: `Success` for `Ok`, the error's code
    /// otherwise.
    pub fn result_to_result_code(x: Result<(), DrainSemaphoreError>) -> (r: ResultCode)
        ensures
            r == match x {
                Ok(()) => ResultCode::Success,
                Err(e) => e.result_code_spec(),
            },
    {
        match x {
            Ok(()) => ResultCode::Success,
            Err(e) => e.to_result_code(),
        }
    }
}

/// Error type of a kernel operation; the variants carry the same numeric
/// values as the corresponding [`ResultCode`]s.
#[derive(Debug, Clone, Copy, PartialEq, Eq, Structural, Hash)]
pub enum SignalSemaphoreError {
    NoAccess,
    BadContext,
    QueueOverflow,
}

impl SignalSemaphoreError {
    /// The name of the error's variant.
    pub open spec fn name_spec(self) -> Seq<char> {
        match self {
            SignalSemaphoreError::NoAccess => "NoAccess"@,
            SignalSemaphoreError::BadContext => "BadContext"@,
            SignalSemaphoreError::QueueOverflow => "QueueOverflow"@,
        }
    }

    /// Every error converts to the result code of the same name.
    pub proof fn lemma_result_code_has_same_name(self)
        ensures
            self.result_code_spec().name_spec() == self.name_spec(),
            self.result_code_spec().value_spec() < 0,
    {
    }

    /// The result code of the error.
    pub open spec fn result_code_spec(self) -> ResultCode {
        match self {
            SignalSemaphoreError::NoAccess => ResultCode::NoAccess,
            SignalSemaphoreError::BadContext => ResultCode::BadContext,
            SignalSemaphoreError::QueueOverflow => ResultCode::QueueOverflow,
        }
    }

    /// The result code of the error; it always represents a failure.
    pub fn to_result_code(self) -> (r: ResultCode)
        ensures
            r == self.result_code_spec(),
            r.name_spec() == self.name_spec(),
            r.value_spec() < 0,
    {
        match self {
            SignalSemaphoreError::NoAccess => ResultCode::NoAccess,
            SignalSemaphoreError::BadContext => ResultCode::BadContext,
            SignalSemaphoreError::QueueOverflow => ResultCode::QueueOverflow,
        }
    }

    /// The result code of an outcome: `Success` for `Ok`, the error's code
    /// otherwise.
    pub fn result_to_result_code(x: Result<(), SignalSemaphoreError>) -> (r: ResultCode)
        ensures
            r == match x {
                Ok(()) => ResultCode::Success,
                Err(e) => e.result_code_spec(),
            },
    {
        match x {
            Ok(()) => ResultCode::Success,
            Err(e) => e.to_result_code(),
        }
    }
}

/// Error type of a kernel operation; the variants carry the same numeric
/// values as the corresponding [`ResultCode`]s.
#[derive(Debug, Clone, Copy, PartialEq, Eq, Structural, Hash)]
pub enum PollSemaphoreError {
    NoAccess,
    BadContext,
    Timeout,
}

impl PollSemaphoreError {
    /// The name of the error's variant.
    pub open spec fn name_spec(self) -> Seq<char> {
        match self {
            PollSemaphoreError::NoAccess => "NoAccess"@,
            PollSemaphoreError::BadContext => "BadContext"@,
            PollSemaphoreError::Timeout => "Timeout"@,
        }
    }

    /// Every error converts to the result code of the same name.
    pub proof fn lemma_result_code_has_same_name(self)
        ensures
            self.result_code_spec().name_spec() == self.name_spec(),
            self.result_code_spec().value_spec() < 0,
    {
    }

    /// The result code of the error.
    pub open spec fn result_code_spec(self) -> ResultCode {
        match self {
            PollSemaphoreError::NoAccess => ResultCode::NoAccess,
            PollSemaphoreError::BadContext => ResultCode::BadContext,
            PollSemaphoreError::Timeout => ResultCode::Timeout,
        }
    }

    /// The result code of the error; it always represents a failure.
    pub fn to_result_code(self) -> (r: ResultCode)
        ensures
            r == self.result_code_spec(),
            r.name_spec() == self.name_spec(),
            r.value_spec() < 0,
    {
        match self {
            PollSemaphoreError::NoAccess => ResultCode::NoAccess,
            PollSemaphoreError::BadContext => ResultCode::BadContext,
            PollSemaphoreError::Timeout => ResultCode::Timeout,
        }
    }

    /// The result code of an outcome: `Success` for `Ok`, the error's code
    /// otherwise.
    pub fn result_to_result_code(x: Result<(), PollSemaphoreError>) -> (r: ResultCode)
        ensures
            r == match x {
                Ok(()) => ResultCode::Success,
                Err(e) => e.result_code_spec(),
            },
    {
        match x {
            Ok(()) => ResultCode::Success,
            Err(e) => e.to_result_code(),
        }
    }
}

/// Error type of a kernel operation; the variants carry the same numeric
/// values as the corresponding [`ResultCode`]s.
#[derive(Debug, Clone, Copy, PartialEq, Eq, Structural, Hash)]
pub enum WaitSemaphoreError {
    NoAccess,
    BadContext,
    Interrupted,
}

impl WaitSemaphoreError {
    /// The name of the error's variant.
    pub open spec fn name_spec(self) -> Seq<char> {
        match self {
            WaitSemaphoreError::NoAccess => "NoAccess"@,
            WaitSemaphoreError::BadContext => "BadContext"@,
            WaitSemaphoreError::Interrupted => "Interrupted"@,
        }
    }

    /// Every error converts to the result code of the same name.
    pub proof fn lemma_result_code_has_same_name(self)
        ensures
            self.result_code_spec().name_spec() == self.name_spec(),
            self.result_code_spec().value_spec() < 0,
    {
    }

    /// The result code of the error.
    pub open spec fn result_code_spec(self) -> ResultCode {
        match self {
            WaitSemaphoreError::NoAccess => ResultCode::NoAccess,
            WaitSemaphoreError::BadContext => ResultCode::BadContext,
            WaitSemaphoreError::Interrupted => ResultCode::Interrupted,
        }
    }

    /// The result code of the error; it always represents a failure.
    pub fn to_result_code(self) -> (r: ResultCode)
        ensures
            r == self.result_code_spec(),
            r.name_spec() == self.name_spec(),
            r.value_spec() < 0,
    {
        match self {
            WaitSemaphoreError::NoAccess => ResultCode::NoAccess,
            WaitSemaphoreError::BadContext => ResultCode::BadContext,
            WaitSemaphoreError::Interrupted => ResultCode::Interrupted,
        }
    }

    /// The result code of an outcome: `Success` for `Ok`, the error's code
    /// otherwise.
    pub fn result_to_result_code(x: Result<(), WaitSemaphoreError>) -> (r: ResultCode)
        ensures
            r == match x {
                Ok(()) => ResultCode::Success,
                Err(e) => e.result_code_spec(),
            },
    {
        match x {
            Ok(()) => ResultCode::Success,
            Err(e) => e.to_result_code(),
        }
    }

    /// Convert from [`WaitError`], whose variants are all variants of this type.
    pub fn from_wait_error(x: WaitError) -> (r: Self)
        ensures
            r.result_code_spec() == x.result_code_spec(),
    {
        match x {
            WaitError::Interrupted => WaitSemaphoreError::Interrupted,
        }
    }
}

/// Error type of a kernel operation; the variants carry the same numeric
/// values as the corresponding [`ResultCode`]s.
#[derive(Debug, Clone, Copy, PartialEq, Eq, Structural, Hash)]
pub enum WaitSemaphoreTimeoutError {
    NoAccess,
    BadContext,
    Interrupted,
    Timeout,
    BadParam,
}

impl WaitSemaphoreTimeoutError {
    /// The name of the error's variant.
    pub open spec fn name_spec(self) -> Seq<char> {
        match self {
            WaitSemaphoreTimeoutError::NoAccess => "NoAccess"@,
            WaitSemaphoreTimeoutError::BadContext => "BadContext"@,
            WaitSemaphoreTimeoutError::Interrupted => "Interrupted"@,
            WaitSemaphoreTimeoutError::Timeout => "Timeout"@,
            WaitSemaphoreTimeoutError::BadParam => "BadParam"@,
        }
    }

    /// Every error converts to the result code of the same name.
    pub proof fn lemma_result_code_has_same_name(self)
        ensures
            self.result_code_spec().name_spec() == self.name_spec(),
            self.result_code_spec().value_spec() < 0,
    {
    }

    /// The result code of the error.
    pub open spec fn result_code_spec(self) -> ResultCode {
        match self {
            WaitSemaphoreTimeoutError::NoAccess => ResultCode::NoAccess,
            WaitSemaphoreTimeoutError::BadContext => ResultCode::BadContext,
            WaitSemaphoreTimeoutError::Interrupted => ResultCode::Interrupted,
            WaitSemaphoreTimeoutError::Timeout => ResultCode::Timeout,
            WaitSemaphoreTimeoutError::BadParam => ResultCode::BadParam,
        }
    }

    /// The result code of the error; it always represents a failure.
    pub fn to_result_code(self) -> (r: ResultCode)
        ensures
            r == self.result_code_spec(),
            r.name_spec() == self.name_spec(),
            r.value_spec() < 0,
    {
        match self {
            WaitSemaphoreTimeoutError::NoAccess => ResultCode::NoAccess,
            WaitSemaphoreTimeoutError::BadContext => ResultCode::BadContext,
            WaitSemaphoreTimeoutError::Interrupted => ResultCode::Interrupted,
            WaitSemaphoreTimeoutError::Timeout => ResultCode::Timeout,
            WaitSemaphoreTimeoutError::BadParam => ResultCode::BadParam,
        }
    }

    /// The result code of an outcome: `Success` for `Ok`, the error's code
    /// otherwise.
    pub fn result_to_result_code(x: Result<(), WaitSemaphoreTimeoutError>) -> (r: ResultCode)
        ensures
            r == match x {
                Ok(()) => ResultCode::Success,
                Err(e) => e.result_code_spec(),
            },
    {
        match x {
            Ok(()) => ResultCode::Success,
            Err(e) => e.to_result_code(),
        }
    }

    /// Convert from [`WaitTimeoutError`], whose variants are all variants of this type.
    pub fn from_wait_timeout_error(x: WaitTimeoutError) -> (r: Self)
        ensures
            r.result_code_spec() == x.result_code_spec(),
    {
        match x {
            WaitTimeoutError::Interrupted => WaitSemaphoreTimeoutError::Interrupted,
            WaitTimeoutError::Timeout => WaitSemaphoreTimeoutError::Timeout,
        }
    }
}

/// Error type of a kernel operation; the variants carry the same numeric
/// values as the corresponding [`ResultCode`]s.
#[derive(Debug, Clone, Copy, PartialEq, Eq, Structural, Hash)]
pub enum QueryMutexError {
    NoAccess,
    BadContext,
}

impl QueryMutexError {
    /// The name of the error's variant.
    pub open spec fn name_spec(self) -> Seq<char> {
        match self {
            QueryMutexError::NoAccess => "NoAccess"@,
            QueryMutexError::BadContext => "BadContext"@,
        }
    }

    /// Every error converts to the result code of the same name.
    pub proof fn lemma_result_code_has_same_name(self)
        ensures
            self.result_code_spec().name_spec() == self.name_spec(),
            self.result_code_spec().value_spec() < 0,
    {
    }

    /// The result code of the error.
    pub open spec fn result_code_spec(self) -> ResultCode {
        match self {
            QueryMutexError::NoAccess => ResultCode::NoAccess,
            QueryMutexError::BadContext => ResultCode::BadContext,
        }
    }

    /// The result code of the error; it always represents a failure.
    pub fn to_result_code(self) -> (r: ResultCode)
        ensures
            r == self.result_code_spec(),
            r.name_spec() == self.name_spec(),
            r.value_spec() < 0,
    {
        match self {
            QueryMutexError::NoAccess => ResultCode::NoAccess,
            QueryMutexError::BadContext => ResultCode::BadContext,
        }
    }

    /// The result code of an outcome: `Success` for `Ok`, the error's code
    /// otherwise.
    pub fn result_to_result_code(x: Result<(), QueryMutexError>) -> (r: ResultCode)
        ensures
            r == match x {
                Ok(()) => ResultCode::Success,
                Err(e) => e.result_code_spec(),
            },
    {
        match x {
            Ok(()) => ResultCode::Success,
            Err(e) => e.to_result_code(),
        }
    }
}

/// Error type of a kernel operation; the variants carry the same numeric
/// values as the corresponding [`ResultCode`]s.
#[derive(Debug, Clone, Copy, PartialEq, Eq, Structural, Hash)]
pub enum UnlockMutexError {
    NoAccess,
    BadContext,
    NotOwner,
    BadObjectState,
}

impl UnlockMutexError {
    /// The name of the error's variant.
    pub open spec fn name_spec(self) -> Seq<char> {
        match self {
            UnlockMutexError::NoAccess => "NoAccess"@,
            UnlockMutexError::BadContext => "BadContext"@,
            UnlockMutexError::NotOwner => "NotOwner"@,
            UnlockMutexError::BadObjectState => "BadObjectState"@,
        }
    }

    /// Every error converts to the result code of the same name.
    pub proof fn lemma_result_code_has_same_name(self)
        ensures
            self.result_code_spec().name_spec() == self.name_spec(),
            self.result_code_spec().value_spec() < 0,
    {
    }

    /// The result code of the error.
    pub open spec fn result_code_spec(self) -> ResultCode {
        match self {
            UnlockMutexError::NoAccess => ResultCode::NoAccess,
            UnlockMutexError::BadContext => ResultCode::BadContext,
            UnlockMutexError::NotOwner => ResultCode::NotOwner,
            UnlockMutexError::BadObjectState => ResultCode::BadObjectState,
        }
    }

    /// The result code of the error; it always represents a failure.
    pub fn to_result_code(self) -> (r: ResultCode)
        ensures
            r == self.result_code_spec(),
            r.name_spec() == self.name_spec(),
            r.value_spec() < 0,
    {
        match self {
            UnlockMutexError::NoAccess => ResultCode::NoAccess,
            UnlockMutexError::BadContext => ResultCode::BadContext,
            UnlockMutexError::NotOwner => ResultCode::NotOwner,
            UnlockMutexError::BadObjectState => ResultCode::BadObjectState,
        }
    }

    /// The result code of an outcome: `Success` for `Ok`, the error's code
    /// otherwise.
    pub fn result_to_result_code(x: Result<(), UnlockMutexError>) -> (r: ResultCode)
        ensures
            r == match x {
                Ok(()) => ResultCode::Success,
                Err(e) => e.result_code_spec(),
            },
    {
        match x {
            Ok(()) => ResultCode::Success,
            Err(e) => e.to_result_code(),
        }
    }
}

/// Error type of a kernel operation; the variants carry the same numeric
/// values as the corresponding [`ResultCode`]s.
#[derive(Debug, Clone, Copy, PartialEq, Eq, Structural, Hash)]
pub enum TryLockMutexError {
    NoAccess,
    BadContext,
    Timeout,
    WouldDeadlock,
    BadParam,
    Abandoned,
}

impl TryLockMutexError {
    /// The name of the error's variant.
    pub open spec fn name_spec(self) -> Seq<char> {
        match self {
            TryLockMutexError::NoAccess => "NoAccess"@,
            TryLockMutexError::BadContext => "BadContext"@,
            TryLockMutexError::Timeout => "Timeout"@,
            TryLockMutexError::WouldDeadlock => "WouldDeadlock"@,
            TryLockMutexError::BadParam => "BadParam"@,
            TryLockMutexError::Abandoned => "Abandoned"@,
        }
    }

    /// Every error converts to the result code of the same name.
    pub proof fn lemma_result_code_has_same_name(self)
        ensures
            self.result_code_spec().name_spec() == self.name_spec(),
            self.result_code_spec().value_spec() < 0,
    {
    }

    /// The result code of the error.
    pub open spec fn result_code_spec(self) -> ResultCode {
        match self {
            TryLockMutexError::NoAccess => ResultCode::NoAccess,
            TryLockMutexError::BadContext => ResultCode::BadContext,
            TryLockMutexError::Timeout => ResultCode::Timeout,
            TryLockMutexError::WouldDeadlock => ResultCode::WouldDeadlock,
            TryLockMutexError::BadParam => ResultCode::BadParam,
            TryLockMutexError::Abandoned => ResultCode::Abandoned,
        }
    }

    /// The result code of the error; it always represents a failure.
    pub fn to_result_code(self) -> (r: ResultCode)
        ensures
            r == self.result_code_spec(),
            r.name_spec() == self.name_spec(),
            r.value_spec() < 0,
    {
        match self {
            TryLockMutexError::NoAccess => ResultCode::NoAccess,
            TryLockMutexError::BadContext => ResultCode::BadContext,
            TryLockMutexError::Timeout => ResultCode::Timeout,
            TryLockMutexError::WouldDeadlock => ResultCode::WouldDeadlock,
            TryLockMutexError::BadParam => ResultCode::BadParam,
            TryLockMutexError::Abandoned => ResultCode::Abandoned,
        }
    }

    /// The result code of an outcome: `Success` for `Ok`, the error's code
    /// otherwise.
    pub fn result_to_result_code(x: Result<(), TryLockMutexError>) -> (r: ResultCode)
        ensures
            r == match x {
                Ok(()) => ResultCode::Success,
                Err(e) => e.result_code_spec(),
            },
    {
        match x {
            Ok(()) => ResultCode::Success,
            Err(e) => e.to_result_code(),
        }
    }
}

/// Error type of a kernel operation; the variants carry the same numeric
/// values as the corresponding [`ResultCode`]s.
#[derive(Debug, Clone, Copy, PartialEq, Eq, Structural, Hash)]
pub enum LockMutexError {
    NoAccess,
    BadContext,
    Interrupted,
    WouldDeadlock,
    BadParam,
    Abandoned,
}

impl LockMutexError {
    /// The name of the error's variant.
    pub open spec fn name_spec(self) -> Seq<char> {
        match self {
            LockMutexError::NoAccess => "NoAccess"@,
            LockMutexError::BadContext => "BadContext"@,
            LockMutexError::Interrupted => "Interrupted"@,
            LockMutexError::WouldDeadlock => "WouldDeadlock"@,
            LockMutexError::BadParam => "BadParam"@,
            LockMutexError::Abandoned => "Abandoned"@,
        }
    }

    /// Every error converts to the result code of the same name.
    pub proof fn lemma_result_code_has_same_name(self)
        ensures
            self.result_code_spec().name_spec() == self.name_spec(),
            self.result_code_spec().value_spec() < 0,
    {
    }

    /// The result code of the error.
    pub open spec fn result_code_spec(self) -> ResultCode {
        match self {
            LockMutexError::NoAccess => ResultCode::NoAccess,
            LockMutexError::BadContext => ResultCode::BadContext,
            LockMutexError::Interrupted => ResultCode::Interrupted,
            LockMutexError::WouldDeadlock => ResultCode::WouldDeadlock,
            LockMutexError::BadParam => ResultCode::BadParam,
            LockMutexError::Abandoned => ResultCode::Abandoned,
        }
    }

    /// The result code of the error; it always represents a failure.
    pub fn to_result_code(self) -> (r: ResultCode)
        ensures
            r == self.result_code_spec(),
            r.name_spec() == self.name_spec(),
            r.value_spec() < 0,
    {
        match self {
            LockMutexError::NoAccess => ResultCode::NoAccess,
            LockMutexError::BadContext => ResultCode::BadContext,
            LockMutexError::Interrupted => ResultCode::Interrupted,
            LockMutexError::WouldDeadlock => ResultCode::WouldDeadlock,
            LockMutexError::BadParam => ResultCode::BadParam,
            LockMutexError::Abandoned => ResultCode::Abandoned,
        }
    }

    /// The result code of an outcome: `Success` for `Ok`, the error's code
    /// otherwise.
    pub fn result_to_result_code(x: Result<(), LockMutexError>) -> (r: ResultCode)
        ensures
            r == match x {
                Ok(()) => ResultCode::Success,
                Err(e) => e.result_code_spec(),
            },
    {
        match x {
            Ok(()) => ResultCode::Success,
            Err(e) => e.to_result_code(),
        }
    }

    /// Convert from [`WaitError`], whose variants are all variants of this type.
    pub fn from_wait_error(x: WaitError) -> (r: Self)
        ensures
            r.result_code_spec() == x.result_code_spec(),
    {
        match x {
            WaitError::Interrupted => LockMutexError::Interrupted,
        }
    }
}

/// Error type of a kernel operation; the variants carry the same numeric
/// values as the corresponding [`ResultCode`]s.
#[derive(Debug, Clone, Copy, PartialEq, Eq, Structural, Hash)]
pub enum LockMutexTimeoutError {
    NoAccess,
    BadContext,
    Interrupted,
    Timeout,
    WouldDeadlock,
    BadParam,
    Abandoned,
}

impl LockMutexTimeoutError {
    /// The name of the error's variant.
    pub open spec fn name_spec(self) -> Seq<char> {
        match self {
            LockMutexTimeoutError::NoAccess => "NoAccess"@,
            LockMutexTimeoutError::BadContext => "BadContext"@,
            LockMutexTimeoutError::Interrupted => "Interrupted"@,
            LockMutexTimeoutError::Timeout => "Timeout"@,
            LockMutexTimeoutError::WouldDeadlock => "WouldDeadlock"@,
            LockMutexTimeoutError::BadParam => "BadParam"@,
            LockMutexTimeoutError::Abandoned => "Abandoned"@,
        }
    }

    /// Every error converts to the result code of the same name.
    pub proof fn lemma_result_code_has_same_name(self)
        ensures
            self.result_code_spec().name_spec() == self.name_spec(),
            self.result_code_spec().value_spec() < 0,
    {
    }

    /// The result code of the error.
    pub open spec fn result_code_spec(self) -> ResultCode {
        match self {
            LockMutexTimeoutError::NoAccess => ResultCode::NoAccess,
            LockMutexTimeoutError::BadContext => ResultCode::BadContext,
            LockMutexTimeoutError::Interrupted => ResultCode::Interrupted,
            LockMutexTimeoutError::Timeout => ResultCode::Timeout,
            LockMutexTimeoutError::WouldDeadlock => ResultCode::WouldDeadlock,
            LockMutexTimeoutError::BadParam => ResultCode::BadParam,
            LockMutexTimeoutError::Abandoned => ResultCode::Abandoned,
        }
    }

    /// The result code of the error; it always represents a failure.
    pub fn to_result_code(self) -> (r: ResultCode)
        ensures
            r == self.result_code_spec(),
            r.name_spec() == self.name_spec(),
            r.value_spec() < 0,
    {
        match self {
            LockMutexTimeoutError::NoAccess => ResultCode::NoAccess,
            LockMutexTimeoutError::BadContext => ResultCode::BadContext,
            LockMutexTimeoutError::Interrupted => ResultCode::Interrupted,
            LockMutexTimeoutError::Timeout => ResultCode::Timeout,
            LockMutexTimeoutError::WouldDeadlock => ResultCode::WouldDeadlock,
            LockMutexTimeoutError::BadParam => ResultCode::BadParam,
            LockMutexTimeoutError::Abandoned => ResultCode::Abandoned,
        }
    }

    /// The result code of an outcome: `Success` for `Ok`, the error's code
    /// otherwise.
    pub fn result_to_result_code(x: Result<(), LockMutexTimeoutError>) -> (r: ResultCode)
        ensures
            r == match x {
                Ok(()) => ResultCode::Success,
                Err(e) => e.result_code_spec(),
            },
    {
        match x {
            Ok(()) => ResultCode::Success,
            Err(e) => e.to_result_code(),
        }
    }

    /// Convert from [`WaitTimeoutError`], whose variants are all variants of this type.
    pub fn from_wait_timeout_error(x: WaitTimeoutError) -> (r: Self)
        ensures
            r.result_code_spec() == x.result_code_spec(),
    {
        match x {
            WaitTimeoutError::Interrupted => LockMutexTimeoutError::Interrupted,
            WaitTimeoutError::Timeout => LockMutexTimeoutError::Timeout,
        }
    }
}

/// Error type of a kernel operation; the variants carry the same numeric
/// values as the corresponding [`ResultCode`]s.
#[derive(Debug, Clone, Copy, PartialEq, Eq, Structural, Hash)]
pub enum MarkConsistentMutexError {
    NoAccess,
    BadContext,
    BadObjectState,
}

impl MarkConsistentMutexError {
    /// The name of the error's variant.
    pub open spec fn name_spec(self) -> Seq<char> {
        match self {
            MarkConsistentMutexError::NoAccess => "NoAccess"@,
            MarkConsistentMutexError::BadContext => "BadContext"@,
            MarkConsistentMutexError::BadObjectState => "BadObjectState"@,
        }
    }

    /// Every error converts to the result code of the same name.
    pub proof fn lemma_result_code_has_same_name(self)
        ensures
            self.result_code_spec().name_spec() == self.name_spec(),
            self.result_code_spec().value_spec() < 0,
    {
    }

    /// The result code of the error.
    pub open spec fn result_code_spec(self) -> ResultCode {
        match self {
            MarkConsistentMutexError::NoAccess => ResultCode::NoAccess,
            MarkConsistentMutexError::BadContext => ResultCode::BadContext,
            MarkConsistentMutexError::BadObjectState => ResultCode::BadObjectState,
        }
    }

    /// The result code of the error; it always represents a failure.
    pub fn to_result_code(self) -> (r: ResultCode)
        ensures
            r == self.result_code_spec(),
            r.name_spec() == self.name_spec(),
            r.value_spec() < 0,
    {
        match self {
            MarkConsistentMutexError::NoAccess => ResultCode::NoAccess,
            MarkConsistentMutexError::BadContext => ResultCode::BadContext,
            MarkConsistentMutexError::BadObjectState => ResultCode::BadObjectState,
        }
    }

    /// The result code of an outcome: `Success` for `Ok`, the error's code
    /// otherwise.
    pub fn result_to_result_code(x: Result<(), MarkConsistentMutexError>) -> (r: ResultCode)
        ensures
            r == match x {
                Ok(()) => ResultCode::Success,
                Err(e) => e.result_code_spec(),
            },
    {
        match x {
            Ok(()) => ResultCode::Success,
            Err(e) => e.to_result_code(),
        }
    }
}

/// Error type of a kernel operation; the variants carry the same numeric
/// values as the corresponding [`ResultCode`]s.
#[derive(Debug, Clone, Copy, PartialEq, Eq, Structural, Hash)]
pub enum SetInterruptLinePriorityError {
    NotSupported,
    BadContext,
    BadParam,
}

impl SetInterruptLinePriorityError {
    /// The name of the error's variant.
    pub open spec fn name_spec(self) -> Seq<char> {
        match self {
            SetInterruptLinePriorityError::NotSupported => "NotSupported"@,
            SetInterruptLinePriorityError::BadContext => "BadContext"@,
            SetInterruptLinePriorityError::BadParam => "BadParam"@,
        }
    }

    /// Every error converts to the result code of the same name.
    pub proof fn lemma_result_code_has_same_name(self)
        ensures
            self.result_code_spec().name_spec() == self.name_spec(),
            self.result_code_spec().value_spec() < 0,
    {
    }

    /// The result code of the error.
    pub open spec fn result_code_spec(self) -> ResultCode {
        match self {
            SetInterruptLinePriorityError::NotSupported => ResultCode::NotSupported,
            SetInterruptLinePriorityError::BadContext => ResultCode::BadContext,
            SetInterruptLinePriorityError::BadParam => ResultCode::BadParam,
        }
    }

    /// The result code of the error; it always represents a failure.
    pub fn to_result_code(self) -> (r: ResultCode)
        ensures
            r == self.result_code_spec(),
            r.name_spec() == self.name_spec(),
            r.value_spec() < 0,
    {
        match self {
            SetInterruptLinePriorityError::NotSupported => ResultCode::NotSupported,
            SetInterruptLinePriorityError::BadContext => ResultCode::BadContext,
            SetInterruptLinePriorityError::BadParam => ResultCode::BadParam,
        }
    }

    /// The result code of an outcome: `Success` for `Ok`, the error's code
    /// otherwise.
    pub fn result_to_result_code(x: Result<(), SetInterruptLinePriorityError>) -> (r: ResultCode)
        ensures
            r == match x {
                Ok(()) => ResultCode::Success,
                Err(e) => e.result_code_spec(),
            },
    {
        match x {
            Ok(()) => ResultCode::Success,
            Err(e) => e.to_result_code(),
        }
    }
}

/// Error type of a kernel operation; the variants carry the same numeric
/// values as the corresponding [`ResultCode`]s.
#[derive(Debug, Clone, Copy, PartialEq, Eq, Structural, Hash)]
pub enum EnableInterruptLineError {
    NotSupported,
    BadParam,
}

impl EnableInterruptLineError {
    /// The name of the error's variant.
    pub open spec fn name_spec(self) -> Seq<char> {
        match self {
            EnableInterruptLineError::NotSupported => "NotSupported"@,
            EnableInterruptLineError::BadParam => "BadParam"@,
        }
    }

    /// Every error converts to the result code of the same name.
    pub proof fn lemma_result_code_has_same_name(self)
        ensures
            self.result_code_spec().name_spec() == self.name_spec(),
            self.result_code_spec().value_spec() < 0,
    {
    }

    /// The result code of the error.
    pub open spec fn result_code_spec(self) -> ResultCode {
        match self {
            EnableInterruptLineError::NotSupported => ResultCode::NotSupported,
            EnableInterruptLineError::BadParam => ResultCode::BadParam,
        }
    }

    /// The result code of the error; it always represents a failure.
    pub fn to_result_code(self) -> (r: ResultCode)
        ensures
            r == self.result_code_spec(),
            r.name_spec() == self.name_spec(),
            r.value_spec() < 0,
    {
        match self {
            EnableInterruptLineError::NotSupported => ResultCode::NotSupported,
            EnableInterruptLineError::BadParam => ResultCode::BadParam,
        }
    }

    /// The result code of an outcome: `Success` for `Ok`, the error's code
    /// otherwise.
    pub fn result_to_result_code(x: Result<(), EnableInterruptLineError>) -> (r: ResultCode)
        ensures
            r == match x {
                Ok(()) => ResultCode::Success,
                Err(e) => e.result_code_spec(),
            },
    {
        match x {
            Ok(()) => ResultCode::Success,
            Err(e) => e.to_result_code(),
        }
    }
}

/// Error type of a kernel operation; the variants carry the same numeric
/// values as the corresponding [`ResultCode`]s.
#[derive(Debug, Clone, Copy, PartialEq, Eq, Structural, Hash)]
pub enum PendInterruptLineError {
    NotSupported,
    BadParam,
    BadObjectState,
}

impl PendInterruptLineError {
    /// The name of the error's variant.
    pub open spec fn name_spec(self) -> Seq<char> {
        match self {
            PendInterruptLineError::NotSupported => "NotSupported"@,
            PendInterruptLineError::BadParam => "BadParam"@,
            PendInterruptLineError::BadObjectState => "BadObjectState"@,
        }
    }

    /// Every error converts to the result code of the same name.
    pub proof fn lemma_result_code_has_same_name(self)
        ensures
            self.result_code_spec().name_spec() == self.name_spec(),
            self.result_code_spec().value_spec() < 0,
    {
    }

    /// The result code of the error.
    pub open spec fn result_code_spec(self) -> ResultCode {
        match self {
            PendInterruptLineError::NotSupported => ResultCode::NotSupported,
            PendInterruptLineError::BadParam => ResultCode::BadParam,
            PendInterruptLineError::BadObjectState => ResultCode::BadObjectState,
        }
    }

    /// The result code of the error; it always represents a failure.
    pub fn to_result_code(self) -> (r: ResultCode)
        ensures
            r == self.result_code_spec(),
            r.name_spec() == self.name_spec(),
            r.value_spec() < 0,
    {
        match self {
            PendInterruptLineError::NotSupported => ResultCode::NotSupported,
            PendInterruptLineError::BadParam => ResultCode::BadParam,
            PendInterruptLineError::BadObjectState => ResultCode::BadObjectState,
        }
    }

    /// The result code of an outcome: `Success` for `Ok`, the error's code
    /// otherwise.
    pub fn result_to_result_code(x: Result<(), PendInterruptLineError>) -> (r: ResultCode)
        ensures
            r == match x {
                Ok(()) => ResultCode::Success,
                Err(e) => e.result_code_spec(),
            },
    {
        match x {
            Ok(()) => ResultCode::Success,
            Err(e) => e.to_result_code(),
        }
    }
}

/// Error type of a kernel operation; the variants carry the same numeric
/// values as the corresponding [`ResultCode`]s.
#[derive(Debug, Clone, Copy, PartialEq, Eq, Structural, Hash)]
pub enum ClearInterruptLineError {
    NotSupported,
    BadParam,
    BadObjectState,
}

impl ClearInterruptLineError {
    /// The name of the error's variant.
    pub open spec fn name_spec(self) -> Seq<char> {
        match self {
            ClearInterruptLineError::NotSupported => "NotSupported"@,
            ClearInterruptLineError::BadParam => "BadParam"@,
            ClearInterruptLineError::BadObjectState => "BadObjectState"@,
        }
    }

    /// Every error converts to the result code of the same name.
    pub proof fn lemma_result_code_has_same_name(self)
        ensures
            self.result_code_spec().name_spec() == self.name_spec(),
            self.result_code_spec().value_spec() < 0,
    {
    }

    /// The result code of the error.
    pub open spec fn result_code_spec(self) -> ResultCode {
        match self {
            ClearInterruptLineError::NotSupported => ResultCode::NotSupported,
            ClearInterruptLineError::BadParam => ResultCode::BadParam,
            ClearInterruptLineError::BadObjectState => ResultCode::BadObjectState,
        }
    }

    /// The result code of the error; it always represents a failure.
    pub fn to_result_code(self) -> (r: ResultCode)
        ensures
            r == self.result_code_spec(),
            r.name_spec() == self.name_spec(),
            r.value_spec() < 0,
    {
        match self {
            ClearInterruptLineError::NotSupported => ResultCode::NotSupported,
            ClearInterruptLineError::BadParam => ResultCode::BadParam,
            ClearInterruptLineError::BadObjectState => ResultCode::BadObjectState,
        }
    }

    /// The result code of an outcome: `Success` for `Ok`, the error's code
    /// otherwise.
    pub fn result_to_result_code(x: Result<(), ClearInterruptLineError>) -> (r: ResultCode)
        ensures
            r == match x {
                Ok(()) => ResultCode::Success,
                Err(e) => e.result_code_spec(),
            },
    {
        match x {
            Ok(()) => ResultCode::Success,
            Err(e) => e.to_result_code(),
        }
    }
}

/// Error type of a kernel operation; the variants carry the same numeric
/// values as the corresponding [`ResultCode`]s.
#[derive(Debug, Clone, Copy, PartialEq, Eq, Structural, Hash)]
pub enum QueryInterruptLineError {
    NotSupported,
    BadParam,
}

impl QueryInterruptLineError {
    /// The name of the error's variant.
    pub open spec fn name_spec(self) -> Seq<char> {
        match self {
            QueryInterruptLineError::NotSupported => "NotSupported"@,
            QueryInterruptLineError::BadParam => "BadParam"@,
        }
    }

    /// Every error converts to the result code of the same name.
    pub proof fn lemma_result_code_has_same_name(self)
        ensures
            self.result_code_spec().name_spec() == self.name_spec(),
            self.result_code_spec().value_spec() < 0,
    {
    }

    /// The result code of the error.
    pub open spec fn result_code_spec(self) -> ResultCode {
        match self {
            QueryInterruptLineError::NotSupported => ResultCode::NotSupported,
            QueryInterruptLineError::BadParam => ResultCode::BadParam,
        }
    }

    /// The result code of the error; it always represents a failure.
    pub fn to_result_code(self) -> (r: ResultCode)
        ensures
            r == self.result_code_spec(),
            r.name_spec() == self.name_spec(),
            r.value_spec() < 0,
    {
        match self {
            QueryInterruptLineError::NotSupported => ResultCode::NotSupported,
            QueryInterruptLineError::BadParam => ResultCode::BadParam,
        }
    }

    /// The result code of an outcome: `Success` for `Ok`, the error's code
    /// otherwise.
    pub fn result_to_result_code(x: Result<(), QueryInterruptLineError>) -> (r: ResultCode)
        ensures
            r == match x {
                Ok(()) => ResultCode::Success,
                Err(e) => e.result_code_spec(),
            },
    {
        match x {
            Ok(()) => ResultCode::Success,
            Err(e) => e.to_result_code(),
        }
    }
}

/// Error type of a kernel operation; the variants carry the same numeric
/// values as the corresponding [`ResultCode`]s.
#[derive(Debug, Clone, Copy, PartialEq, Eq, Structural, Hash)]
pub enum StartTimerError {
    NoAccess,
    BadContext,
}

impl StartTimerError {
    /// The name of the error's variant.
    pub open spec fn name_spec(self) -> Seq<char> {
        match self {
            StartTimerError::NoAccess => "NoAccess"@,
            StartTimerError::BadContext => "BadContext"@,
        }
    }

    /// Every error converts to the result code of the same name.
    pub proof fn lemma_result_code_has_same_name(self)
        ensures
            self.result_code_spec().name_spec() == self.name_spec(),
            self.result_code_spec().value_spec() < 0,
    {
    }

    /// The result code of the error.
    pub open spec fn result_code_spec(self) -> ResultCode {
        match self {
            StartTimerError::NoAccess => ResultCode::NoAccess,
            StartTimerError::BadContext => ResultCode::BadContext,
        }
    }

    /// The result code of the error; it always represents a failure.
    pub fn to_result_code(self) -> (r: ResultCode)
        ensures
            r == self.result_code_spec(),
            r.name_spec() == self.name_spec(),
            r.value_spec() < 0,
    {
        match self {
            StartTimerError::NoAccess => ResultCode::NoAccess,
            StartTimerError::BadContext => ResultCode::BadContext,
        }
    }

    /// The result code of an outcome: `Success` for `Ok`, the error's code
    /// otherwise.
    pub fn result_to_result_code(x: Result<(), StartTimerError>) -> (r: ResultCode)
        ensures
            r == match x {
                Ok(()) => ResultCode::Success,
                Err(e) => e.result_code_spec(),
            },
    {
        match x {
            Ok(()) => ResultCode::Success,
            Err(e) => e.to_result_code(),
        }
    }
}

/// Error type of a kernel operation; the variants carry the same numeric
/// values as the corresponding [`ResultCode`]s.
#[derive(Debug, Clone, Copy, PartialEq, Eq, Structural, Hash)]
pub enum StopTimerError {
    NoAccess,
    BadContext,
}

impl StopTimerError {
    /// The name of the error's variant.
    pub open spec fn name_spec(self) -> Seq<char> {
        match self {
            StopTimerError::NoAccess => "NoAccess"@,
            StopTimerError::BadContext => "BadContext"@,
        }
    }

    /// Every error converts to the result code of the same name.
    pub proof fn lemma_result_code_has_same_name(self)
        ensures
            self.result_code_spec().name_spec() == self.name_spec(),
            self.result_code_spec().value_spec() < 0,
    {
    }

    /// The result code of the error.
    pub open spec fn result_code_spec(self) -> ResultCode {
        match self {
            StopTimerError::NoAccess => ResultCode::NoAccess,
            StopTimerError::BadContext => ResultCode::BadContext,
        }
    }

    /// The result code of the error; it always represents a failure.
    pub fn to_result_code(self) -> (r: ResultCode)
        ensures
            r == self.result_code_spec(),
            r.name_spec() == self.name_spec(),
            r.value_spec() < 0,
    {
        match self {
            StopTimerError::NoAccess => ResultCode::NoAccess,
            StopTimerError::BadContext => ResultCode::BadContext,
        }
    }

    /// The result code of an outcome: `Success` for `Ok`, the error's code
    /// otherwise.
    pub fn result_to_result_code(x: Result<(), StopTimerError>) -> (r: ResultCode)
        ensures
            r == match x {
                Ok(()) => ResultCode::Success,
                Err(e) => e.result_code_spec(),
            },
    {
        match x {
            Ok(()) => ResultCode::Success,
            Err(e) => e.to_result_code(),
        }
    }
}

/// Error type of a kernel operation; the variants carry the same numeric
/// values as the corresponding [`ResultCode`]s.
#[derive(Debug, Clone, Copy, PartialEq, Eq, Structural, Hash)]
pub enum SetTimerDelayError {
    NoAccess,
    BadContext,
    BadParam,
}

impl SetTimerDelayError {
    /// The name of the error's variant.
    pub open spec fn name_spec(self) -> Seq<char> {
        match self {
            SetTimerDelayError::NoAccess => "NoAccess"@,
            SetTimerDelayError::BadContext => "BadContext"@,
            SetTimerDelayError::BadParam => "BadParam"@,
        }
    }

    /// Every error converts to the result code of the same name.
    pub proof fn lemma_result_code_has_same_name(self)
        ensures
            self.result_code_spec().name_spec() == self.name_spec(),
            self.result_code_spec().value_spec() < 0,
    {
    }

    /// The result code of the error.
    pub open spec fn result_code_spec(self) -> ResultCode {
        match self {
            SetTimerDelayError::NoAccess => ResultCode::NoAccess,
            SetTimerDelayError::BadContext => ResultCode::BadContext,
            SetTimerDelayError::BadParam => ResultCode::BadParam,
        }
    }

    /// The result code of the error; it always represents a failure.
    pub fn to_result_code(self) -> (r: ResultCode)
        ensures
            r == self.result_code_spec(),
            r.name_spec() == self.name_spec(),
            r.value_spec() < 0,
    {
        match self {
            SetTimerDelayError::NoAccess => ResultCode::NoAccess,
            SetTimerDelayError::BadContext => ResultCode::BadContext,
            SetTimerDelayError::BadParam => ResultCode::BadParam,
        }
    }

    /// The result code of an outcome: `Success` for `Ok`, the error's code
    /// otherwise.
    pub fn result_to_result_code(x: Result<(), SetTimerDelayError>) -> (r: ResultCode)
        ensures
            r == match x {
                Ok(()) => ResultCode::Success,
                Err(e) => e.result_code_spec(),
            },
    {
        match x {
            Ok(()) => ResultCode::Success,
            Err(e) => e.to_result_code(),
        }
    }
}

/// Error type of a kernel operation; the variants carry the same numeric
/// values as the corresponding [`ResultCode`]s.
#[derive(Debug, Clone, Copy, PartialEq, Eq, Structural, Hash)]
pub enum SetTimerPeriodError {
    NoAccess,
    BadContext,
    BadParam,
}

impl SetTimerPeriodError {
    /// The name of the error's variant.
    pub open spec fn name_spec(self) -> Seq<char> {
        match self {
            SetTimerPeriodError::NoAccess => "NoAccess"@,
            SetTimerPeriodError::BadContext => "BadContext"@,
            SetTimerPeriodError::BadParam => "BadParam"@,
        }
    }

    /// Every error converts to the result code of the same name.
    pub proof fn lemma_result_code_has_same_name(self)
        ensures
            self.result_code_spec().name_spec() == self.name_spec(),
            self.result_code_spec().value_spec() < 0,
    {
    }

    /// The result code of the error.
    pub open spec fn result_code_spec(self) -> ResultCode {
        match self {
            SetTimerPeriodError::NoAccess => ResultCode::NoAccess,
            SetTimerPeriodError::BadContext => ResultCode::BadContext,
            SetTimerPeriodError::BadParam => ResultCode::BadParam,
        }
    }

    /// The result code of the error; it always represents a failure.
    pub fn to_result_code(self) -> (r: ResultCode)
        ensures
            r == self.result_code_spec(),
            r.name_spec() == self.name_spec(),
            r.value_spec() < 0,
    {
        match self {
            SetTimerPeriodError::NoAccess => ResultCode::NoAccess,
            SetTimerPeriodError::BadContext => ResultCode::BadContext,
            SetTimerPeriodError::BadParam => ResultCode::BadParam,
        }
    }

    /// The result code of an outcome: `Success` for `Ok`, the error's code
    /// otherwise.
    pub fn result_to_result_code(x: Result<(), SetTimerPeriodError>) -> (r: ResultCode)
        ensures
            r == match x {
                Ok(()) => ResultCode::Success,
                Err(e) => e.result_code_spec(),
            },
    {
        match x {
            Ok(()) => ResultCode::Success,
            Err(e) => e.to_result_code(),
        }
    }
}

/// Error type of a kernel operation; the variants carry the same numeric
/// values as the corresponding [`ResultCode`]s.
#[derive(Debug, Clone, Copy, PartialEq, Eq, Structural, Hash)]
pub enum BadObjectStateError {
    BadObjectState,
}

impl BadObjectStateError {
    /// The name of the error's variant.
    pub open spec fn name_spec(self) -> Seq<char> {
        match self {
            BadObjectStateError::BadObjectState => "BadObjectState"@,
        }
    }

    /// Every error converts to the result code of the same name.
    pub proof fn lemma_result_code_has_same_name(self)
        ensures
            self.result_code_spec().name_spec() == self.name_spec(),
            self.result_code_spec().value_spec() < 0,
    {
    }

    /// The result code of the error.
    pub open spec fn result_code_spec(self) -> ResultCode {
        match self {
            BadObjectStateError::BadObjectState => ResultCode::BadObjectState,
        }
    }

    /// The result code of the error; it always represents a failure.
    pub fn to_result_code(self) -> (r: ResultCode)
        ensures
            r == self.result_code_spec(),
            r.name_spec() == self.name_spec(),
            r.value_spec() < 0,
    {
        match self {
            BadObjectStateError::BadObjectState => ResultCode::BadObjectState,
        }
    }

    /// The result code of an outcome: `Success` for `Ok`, the error's code
    /// otherwise.
    pub fn result_to_result_code(x: Result<(), BadObjectStateError>) -> (r: ResultCode)
        ensures
            r == match x {
                Ok(()) => ResultCode::Success,
                Err(e) => e.result_code_spec(),
            },
    {
        match x {
            Ok(()) => ResultCode::Success,
            Err(e) => e.to_result_code(),
        }
    }
}

impl WaitTimeoutError {
    /// Narrow a wait outcome to one that cannot time out; the wait must not
    /// have timed out.
    pub fn expect_not_timeout(self) -> (r: WaitError)
        requires
            self != WaitTimeoutError::Timeout,
        ensures
            r.result_code_spec() == self.result_code_spec(),
    {
        match self {
            WaitTimeoutError::Interrupted => WaitError::Interrupted,
            WaitTimeoutError::Timeout => WaitError::Interrupted,
        }
    }
}

} // verus!
