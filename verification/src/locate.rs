//! Finding the virtual machine of the host process.
//!
//! The probing itself is native work: a lookup of the runtime's library
//! among the loaded modules and one call of its enumeration function. What
//! the probe found is judged here, in a single pass and without retries.

use vstd::prelude::*;

use crate::bridge::RuntimeHandle;
use crate::failure::LocateError;

verus! {

/// The name under which the runtime's native library is loaded.
pub const RUNTIME_LIBRARY: &'static str = "jvm.dll";

/// The exported function that enumerates the virtual machines created so
/// far.
pub const ENUMERATION_EXPORT: &'static str = "JNI_GetCreatedJavaVMs";

/// The number of virtual machines asked for.
pub const MAX_INSTANCES: i32 = 1;

/// Judges what a probe found, for any kind of handle.
///
/// `library_present` says whether the runtime's library is loaded,
/// `instances` is the count that the enumeration reported, and `first` is the
/// first enumerated instance as a handle, if it could be made into one. An
/// absent library is reported before anything else; a count below one and a
/// missing handle both mean that there is no virtual machine.
pub fn probe_outcome<H>(library_present: bool, instances: i32, first: Option<H>) -> (r: Result<
    H,
    LocateError,
>)
    ensures
        r is Ok <==> library_present && instances >= 1 && first is Some,
        r matches Ok(handle) ==> first == Some(handle),
        r == Err::<H, LocateError>(LocateError::DllNotFound) <==> !library_present,
        r == Err::<H, LocateError>(LocateError::JvmNotFound) <==> library_present && (instances < 1
            || first is None),
{
    if !library_present {
        return Err(LocateError::DllNotFound);
    }
    if instances < 1 {
        return Err(LocateError::JvmNotFound);
    }
    match first {
        Some(handle) => Ok(handle),
        None => Err(LocateError::JvmNotFound),
    }
}

/// Makes the handle of the virtual machine out of what the probe found: the
/// first enumerated instance, where the library is loaded and reported one.
pub fn locate_runtime(library_present: bool, instances: i32, first: Option<jni::JavaVM>) -> (r:
    Result<RuntimeHandle, LocateError>)
    ensures
        r is Ok <==> library_present && instances >= 1 && first is Some,
        r matches Ok(handle) ==> first == Some(handle.vm),
        r matches Err(e) ==> (e == LocateError::DllNotFound <==> !library_present),
        r matches Err(e) ==> (e == LocateError::JvmNotFound <==> library_present),
{
    match probe_outcome(library_present, instances, first) {
        Ok(vm) => Ok(RuntimeHandle { vm }),
        Err(e) => Err(e),
    }
}

} // verus!
