//! The calls this crate makes into the `jni` crate.
//!
//! Nothing here is proved. Every call talks to a virtual machine that lives
//! outside this crate, so no wrapper promises anything about its result: the
//! callers in [`crate::bridge`] handle both outcomes of each call. The
//! types of `jni` that pass through those callers are declared as opaque.

use vstd::prelude::*;

use crate::bridge::{CallContext, ClassRef, ObjectRef, RuntimeHandle, ACTION_SIGNATURE};

verus! {

/// `jni::JavaVM`: the virtual machine of the host process.
#[verifier::external_type_specification]
#[verifier::external_body]
pub struct ExJavaVM(jni::JavaVM);

/// `jni::AttachGuard`: the calling thread's attachment and its environment.
#[verifier::external_type_specification]
#[verifier::external_body]
pub struct ExAttachGuard<'a>(jni::AttachGuard<'a>);

/// `jni::sys::_jobject`: what a raw object reference points to. No value of
/// it is handled here; `JObject` dereferences to a pointer to it, and the
/// verifier accepts `JObject` only with this type declared.
#[verifier::external_type_specification]
#[verifier::external_body]
pub struct ExRawObject(jni::sys::_jobject);

/// `jni::objects::JClass`: a reference to a class.
#[verifier::external_type_specification]
#[verifier::external_body]
pub struct ExJClass<'a>(jni::objects::JClass<'a>);

/// `jni::objects::JObject`: a reference to an object, possibly null.
#[verifier::external_type_specification]
#[verifier::external_body]
pub struct ExJObject<'a>(jni::objects::JObject<'a>);

/// `jni::objects::JStaticMethodID`: the identifier of a static method.
#[verifier::external_type_specification]
#[verifier::external_body]
pub struct ExJStaticMethodID(jni::objects::JStaticMethodID);

/// `jni::objects::JValueGen`: a value passed to or returned from Java.
#[verifier::external_type_specification]
#[verifier::external_body]
#[verifier::reject_recursive_types(O)]
pub struct ExJValueGen<O>(jni::objects::JValueGen<O>);

/// `jni::errors::Error`: why a call into the virtual machine failed.
#[verifier::external_type_specification]
#[verifier::external_body]
pub struct ExError(jni::errors::Error);

/// Calls `JavaVM::attach_current_thread`. Whether the virtual machine accepts
/// the thread is its own decision, so nothing is promised.
#[verifier::external_body]
pub(crate) fn attach_current_thread<'a>(handle: &'a RuntimeHandle) -> (r: Result<
    jni::AttachGuard<'a>,
    jni::errors::Error,
>) {
    handle.vm.attach_current_thread()
}

/// Calls `JNIEnv::find_class` with `name`. Nothing is promised of the result.
#[verifier::external_body]
pub(crate) fn find_class<'a>(context: &mut CallContext<'a>, name: &str) -> (r: Result<
    jni::objects::JClass<'a>,
    jni::errors::Error,
>) {
    context.guard.find_class(name)
}

/// Calls `JNIEnv::get_static_method_id` for the method `name` with
/// `signature` on `class`. Nothing is promised of the result.
#[verifier::external_body]
pub(crate) fn get_static_method_id<'a>(
    context: &mut CallContext<'a>,
    class: &ClassRef<'a>,
    name: &str,
    signature: &str,
) -> (r: Result<jni::objects::JStaticMethodID, jni::errors::Error>) {
    context.guard.get_static_method_id(&class.class, name, signature)
}

/// Calls `JNIEnv::call_static_method` for the method `name` with `signature`
/// on `class`, passing no arguments. Nothing is promised of the result.
#[verifier::external_body]
pub(crate) fn call_static_method<'a>(
    context: &mut CallContext<'a>,
    class: &ClassRef<'a>,
    name: &str,
    signature: &str,
) -> (r: Result<jni::objects::JValueGen<jni::objects::JObject<'a>>, jni::errors::Error>) {
    context.guard.call_static_method(&class.class, name, signature, &[])
}

/// Calls `JNIEnv::get_field` for the field `name` of type `field_type` on
/// `object`. Nothing is promised of the result.
#[verifier::external_body]
pub(crate) fn get_field<'a>(
    context: &mut CallContext<'a>,
    object: &ObjectRef<'a>,
    name: &str,
    field_type: &str,
) -> (r: Result<jni::objects::JValueGen<jni::objects::JObject<'a>>, jni::errors::Error>) {
    context.guard.get_field(&object.object, name, field_type)
}

/// Calls `JValueGen::l`, which hands out the object reference that a value
/// holds and fails for a value of any other kind. The value is opaque here,
/// so nothing is stated of the result.
#[verifier::external_body]
pub(crate) fn into_object<'a>(value: jni::objects::JValueGen<jni::objects::JObject<'a>>) -> (r:
    Result<jni::objects::JObject<'a>, jni::errors::Error>) {
    value.l()
}

/// Calls `JNIEnv::call_method` for the method `name` on `target`, passing the
/// one boolean `argument`.
///
/// `call_method` panics when the signature it is given declares a method
/// type as an argument, so the only signature accepted here is the one of a
/// method from one boolean to nothing. Nothing is promised of the result.
#[verifier::external_body]
pub(crate) fn call_method<'a>(
    context: &mut CallContext<'a>,
    target: &ObjectRef<'a>,
    name: &str,
    signature: &str,
    argument: bool,
) -> (r: Result<jni::objects::JValueGen<jni::objects::JObject<'a>>, jni::errors::Error>)
    requires
        signature@ == ACTION_SIGNATURE@,
{
    let arguments = [jni::objects::JValueGen::from(argument)];
    context.guard.call_method(&target.object, name, signature, &arguments)
}

} // verus!
