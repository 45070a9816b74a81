//! Attaching to the virtual machine and reaching the target object.

use vstd::prelude::*;

use crate::failure::{AttachError, ReflectError};
use crate::jvm;

verus! {

/// The virtual machine found in the host process. The host owns it; this
/// value only refers to it.
pub struct RuntimeHandle {
    pub vm: jni::JavaVM,
}

/// The calling thread's binding to a virtual machine. It is valid only on the
/// thread that created it.
pub struct CallContext<'a> {
    pub guard: jni::AttachGuard<'a>,
}

/// A reference to a class of the hosted application.
pub struct ClassRef<'a> {
    pub class: jni::objects::JClass<'a>,
}

/// A non-owning reference to an object of the hosted application.
pub struct ObjectRef<'a> {
    pub object: jni::objects::JObject<'a>,
}

/// What one invocation of the repeated action came to.
#[derive(Clone, Copy, Debug, PartialEq, Eq, Structural)]
pub enum ActionResult {
    /// The method was called and returned.
    Completed,
    /// The call failed in this way.
    Failed(ReflectError),
}

impl ActionResult {
    /// What an invocation came to, given what the call into the virtual
    /// machine returned: a call that returned completed, whatever it
    /// returned, and a call that failed is a failed invocation.
    pub fn of_call<T>(raw: Result<T, jni::errors::Error>) -> (r: ActionResult)
        ensures
            raw is Ok ==> r == ActionResult::Completed,
            raw is Err ==> r == ActionResult::Failed(ReflectError::InvocationFailed),
    {
        match raw {
            Ok(_) => ActionResult::Completed,
            Err(_) => ActionResult::Failed(ReflectError::InvocationFailed),
        }
    }
}

/// The signature of the action method: one boolean argument, no result.
pub const ACTION_SIGNATURE: &'static str = "(Z)V";

/// Replaces the error of an outside call by the failure kind of the step
/// that made the call, and keeps a success as it is.
pub fn settle<T, E>(raw: Result<T, jni::errors::Error>, kind: E) -> (r: Result<T, E>)
    ensures
        raw matches Ok(value) ==> r == Ok::<T, E>(value),
        raw is Err ==> r == Err::<T, E>(kind),
{
    match raw {
        Ok(value) => Ok(value),
        Err(_) => Err(kind),
    }
}

/// The reference that reading an object reference off a returned value came
/// to, or the failure `kind` where the value held a number or nothing.
pub fn object_of<'a>(
    held: Result<jni::objects::JObject<'a>, jni::errors::Error>,
    kind: ReflectError,
) -> (r: Result<ObjectRef<'a>, ReflectError>)
    ensures
        r is Ok <==> held is Ok,
        r matches Ok(reference) ==> held matches Ok(object) && reference.object == object,
        r matches Err(e) ==> e == kind,
{
    match held {
        Ok(object) => Ok(ObjectRef { object }),
        Err(_) => Err(kind),
    }
}

/// Binds the calling thread to the virtual machine, which decides whether
/// it is accepted; a rejection is [`AttachError::AttachFailed`].
pub fn attach_thread<'a>(handle: &'a RuntimeHandle) -> (r: Result<CallContext<'a>, AttachError>)
    ensures
        r matches Err(e) ==> e == AttachError::AttachFailed,
{
    attach_outcome(jvm::attach_current_thread(handle))
}

/// Looks up a class by its fully-qualified internal name.
///
/// The virtual machine decides whether it knows the class; whatever reason
/// it gives for handing out none, that is [`ReflectError::ClassNotFound`].
pub fn resolve_class<'a>(context: &mut CallContext<'a>, class_name: &str) -> (r: Result<
    ClassRef<'a>,
    ReflectError,
>)
    ensures
        r matches Err(e) ==> e == ReflectError::ClassNotFound,
{
    class_outcome(jvm::find_class(context, class_name))
}

/// Calls the static method `method_name` of `class`, which takes no argument
/// and returns the root object of the hosted application.
///
/// The method is looked up before it is called, so that a missing method and
/// a failing call are told apart: the first is
/// [`ReflectError::MethodNotFound`], the second, and a result that is no
/// object reference, [`ReflectError::InvocationFailed`].
///
/// Which of them comes, if any, is for the virtual machine to decide:
/// [`settle`] and [`object_of`] say what each of its answers is turned into.
pub fn call_static_factory<'a>(
    context: &mut CallContext<'a>,
    class: &ClassRef<'a>,
    method_name: &str,
    signature: &str,
) -> (r: Result<ObjectRef<'a>, ReflectError>)
    ensures
        r matches Err(e) ==> (e == ReflectError::MethodNotFound
            || e == ReflectError::InvocationFailed),
{
    let found = settle(
        jvm::get_static_method_id(context, class, method_name, signature),
        ReflectError::MethodNotFound,
    );
    match found {
        Err(e) => Err(e),
        Ok(_) => {
            let returned = settle(
                jvm::call_static_method(context, class, method_name, signature),
                ReflectError::InvocationFailed,
            );
            match returned {
                Err(e) => Err(e),
                Ok(value) => object_of(jvm::into_object(value), ReflectError::InvocationFailed),
            }
        },
    }
}

/// Reads the field `field_name` of reference type `field_type` off `object`.
///
/// Every way in which the read can fail, a field of another type included, is
/// reported as [`ReflectError::FieldNotFound`].
pub fn read_instance_field<'a>(
    context: &mut CallContext<'a>,
    object: &ObjectRef<'a>,
    field_name: &str,
    field_type: &str,
) -> (r: Result<ObjectRef<'a>, ReflectError>)
    ensures
        r matches Err(e) ==> e == ReflectError::FieldNotFound,
{
    let read = settle(
        jvm::get_field(context, object, field_name, field_type),
        ReflectError::FieldNotFound,
    );
    match read {
        Err(e) => Err(e),
        Ok(value) => object_of(jvm::into_object(value), ReflectError::FieldNotFound),
    }
}

/// Invokes the action method `method_name` on `target` once, with the one
/// boolean `argument`.
///
/// The outcome is handed back and never raised: the caller decides what a
/// failed invocation means.
pub fn invoke_action<'a>(
    context: &mut CallContext<'a>,
    target: &ObjectRef<'a>,
    method_name: &str,
    argument: bool,
) -> (r: ActionResult)
    ensures
        r matches ActionResult::Failed(e) ==> e == ReflectError::InvocationFailed,
{
    ActionResult::of_call(
        jvm::call_method(context, target, method_name, ACTION_SIGNATURE, argument),
    )
}

/// What an attach request came to: the call context around the attachment
/// that the virtual machine granted, or [`AttachError::AttachFailed`]
/// whatever reason it gave for refusing.
pub fn attach_outcome<'a>(raw: Result<jni::AttachGuard<'a>, jni::errors::Error>) -> (r: Result<
    CallContext<'a>,
    AttachError,
>)
    ensures
        r is Ok <==> raw is Ok,
        r matches Ok(context) ==> raw matches Ok(guard) && context.guard == guard,
        r matches Err(e) ==> e == AttachError::AttachFailed,
{
    match raw {
        Ok(guard) => Ok(CallContext { guard }),
        Err(_) => Err(AttachError::AttachFailed),
    }
}

/// What a class lookup came to: the class that the virtual machine handed
/// out, or [`ReflectError::ClassNotFound`] whatever reason it gave for
/// handing out none.
pub fn class_outcome<'a>(raw: Result<jni::objects::JClass<'a>, jni::errors::Error>) -> (r: Result<
    ClassRef<'a>,
    ReflectError,
>)
    ensures
        r is Ok <==> raw is Ok,
        r matches Ok(reference) ==> raw matches Ok(class) && reference.class == class,
        r matches Err(e) ==> e == ReflectError::ClassNotFound,
{
    match raw {
        Ok(class) => Ok(ClassRef { class }),
        Err(_) => Err(ReflectError::ClassNotFound),
    }
}

} // verus!
