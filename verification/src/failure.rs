//! The failure taxonomy of the setup phase and the text shown for each kind.

use vstd::prelude::*;

verus! {

/// Why the virtual machine could not be located in the host process.
#[derive(Clone, Copy, Debug, PartialEq, Eq, Structural)]
pub enum LocateError {
    /// The runtime's native library is not loaded in this process.
    DllNotFound,
    /// The library is loaded but reported no usable virtual machine.
    JvmNotFound,
}

/// Why the worker thread could not be bound to the virtual machine.
#[derive(Clone, Copy, Debug, PartialEq, Eq, Structural)]
pub enum AttachError {
    /// The virtual machine rejected the attach request.
    AttachFailed,
}

/// Why a reflective step failed.
#[derive(Clone, Copy, Debug, PartialEq, Eq, Structural)]
pub enum ReflectError {
    /// No class of the requested name is known to the virtual machine.
    ClassNotFound,
    /// The class has no method of the requested name and signature.
    MethodNotFound,
    /// The object has no reference field of the requested name and type.
    FieldNotFound,
    /// The method was found but calling it did not yield a usable result.
    InvocationFailed,
}

/// Any failure that a step of the sequence can report.
#[derive(Clone, Copy, Debug, PartialEq, Eq, Structural)]
pub enum Failure {
    /// The virtual machine was not found.
    Locate(LocateError),
    /// The thread was not attached.
    Attach(AttachError),
    /// A reflective step failed.
    Reflect(ReflectError),
}

impl LocateError {
    /// The name of the kind, as shown to the user.
    pub open spec fn name(self) -> Seq<char> {
        match self {
            LocateError::DllNotFound => "DllNotFound"@,
            LocateError::JvmNotFound => "JvmNotFound"@,
        }
    }

    /// The name of the kind.
    pub fn as_str(&self) -> (s: &'static str)
        ensures
            s@ == self.name(),
    {
        match self {
            LocateError::DllNotFound => "DllNotFound",
            LocateError::JvmNotFound => "JvmNotFound",
        }
    }

    /// The name of the kind, as an owned string.
    pub fn to_string(&self) -> (s: String)
        ensures
            s@ == self.name(),
    {
        self.as_str().to_owned()
    }
}

impl AttachError {
    /// The name of the kind, as shown to the user.
    pub open spec fn name(self) -> Seq<char> {
        match self {
            AttachError::AttachFailed => "AttachFailed"@,
        }
    }

    /// The name of the kind.
    pub fn as_str(&self) -> (s: &'static str)
        ensures
            s@ == self.name(),
    {
        match self {
            AttachError::AttachFailed => "AttachFailed",
        }
    }

    /// The name of the kind, as an owned string.
    pub fn to_string(&self) -> (s: String)
        ensures
            s@ == self.name(),
    {
        self.as_str().to_owned()
    }
}

impl ReflectError {
    /// The name of the kind, as shown to the user.
    pub open spec fn name(self) -> Seq<char> {
        match self {
            ReflectError::ClassNotFound => "ClassNotFound"@,
            ReflectError::MethodNotFound => "MethodNotFound"@,
            ReflectError::FieldNotFound => "FieldNotFound"@,
            ReflectError::InvocationFailed => "InvocationFailed"@,
        }
    }

    /// The name of the kind.
    pub fn as_str(&self) -> (s: &'static str)
        ensures
            s@ == self.name(),
    {
        match self {
            ReflectError::ClassNotFound => "ClassNotFound",
            ReflectError::MethodNotFound => "MethodNotFound",
            ReflectError::FieldNotFound => "FieldNotFound",
            ReflectError::InvocationFailed => "InvocationFailed",
        }
    }

    /// The name of the kind, as an owned string.
    pub fn to_string(&self) -> (s: String)
        ensures
            s@ == self.name(),
    {
        self.as_str().to_owned()
    }
}

impl Failure {
    /// The name of the kind, as shown to the user.
    pub open spec fn name(self) -> Seq<char> {
        match self {
            Failure::Locate(e) => e.name(),
            Failure::Attach(e) => e.name(),
            Failure::Reflect(e) => e.name(),
        }
    }

    /// The hint shown in place of the kind's name, for the steps that have
    /// one: attaching the thread and reading the target field.
    pub open spec fn hint(self) -> Option<Seq<char>> {
        match self {
            Failure::Attach(_) => Some("Failed to get environment."@),
            Failure::Reflect(ReflectError::FieldNotFound) => Some("Failed to get player."@),
            _ => None,
        }
    }

    /// The body of the notice shown for this failure: the step's hint where
    /// it has one, the name of the kind otherwise.
    pub open spec fn notice(self) -> Seq<char> {
        match self.hint() {
            Some(text) => text,
            None => self.name(),
        }
    }

    /// The name of the kind.
    pub fn as_str(&self) -> (s: &'static str)
        ensures
            s@ == self.name(),
    {
        match self {
            Failure::Locate(e) => e.as_str(),
            Failure::Attach(e) => e.as_str(),
            Failure::Reflect(e) => e.as_str(),
        }
    }

    /// The name of the kind, as an owned string.
    pub fn to_string(&self) -> (s: String)
        ensures
            s@ == self.name(),
    {
        self.as_str().to_owned()
    }

    /// The hint of the step that reports this failure, if it has one.
    pub fn step_hint(&self) -> (h: Option<&'static str>)
        ensures
            h is Some <==> self.hint() is Some,
            h matches Some(text) ==> self.hint() == Some(text@),
    {
        match self {
            Failure::Attach(_) => Some("Failed to get environment."),
            Failure::Reflect(ReflectError::FieldNotFound) => Some("Failed to get player."),
            _ => None,
        }
    }
}

/// The length and the first character of each name.
proof fn lemma_name_shape(failure: Failure)
    ensures
        failure == Failure::Locate(LocateError::DllNotFound) ==> failure.name().len() == 11
            && failure.name()[0] == 'D',
        failure == Failure::Locate(LocateError::JvmNotFound) ==> failure.name().len() == 11
            && failure.name()[0] == 'J',
        failure == Failure::Attach(AttachError::AttachFailed) ==> failure.name().len() == 12,
        failure == Failure::Reflect(ReflectError::ClassNotFound) ==> failure.name().len() == 13
            && failure.name()[0] == 'C',
        failure == Failure::Reflect(ReflectError::MethodNotFound) ==> failure.name().len() == 14,
        failure == Failure::Reflect(ReflectError::FieldNotFound) ==> failure.name().len() == 13
            && failure.name()[0] == 'F',
        failure == Failure::Reflect(ReflectError::InvocationFailed) ==> failure.name().len()
            == 16,
{
    reveal_strlit("DllNotFound");
    reveal_strlit("JvmNotFound");
    reveal_strlit("AttachFailed");
    reveal_strlit("ClassNotFound");
    reveal_strlit("MethodNotFound");
    reveal_strlit("FieldNotFound");
    reveal_strlit("InvocationFailed");
}

/// The length of each hint.
proof fn lemma_hint_shape(failure: Failure)
    ensures
        failure is Attach ==> failure.notice().len() == 26,
        failure == Failure::Reflect(ReflectError::FieldNotFound) ==> failure.notice().len() == 21,
        failure.hint() is None ==> failure.notice() == failure.name(),
{
    reveal_strlit("Failed to get environment.");
    reveal_strlit("Failed to get player.");
}

/// The name of a failure tells its kind: no two failures share a name.
pub proof fn name_identifies_the_failure(a: Failure, b: Failure)
    requires
        a.name() == b.name(),
    ensures
        a == b,
{
    lemma_name_shape(a);
    lemma_name_shape(b);
}

/// A notice tells the user which failure occurred: no two failures share a
/// notice text.
pub proof fn notice_identifies_the_failure(a: Failure, b: Failure)
    requires
        a.notice() == b.notice(),
    ensures
        a == b,
{
    lemma_name_shape(a);
    lemma_name_shape(b);
    lemma_hint_shape(a);
    lemma_hint_shape(b);
}

} // verus!
