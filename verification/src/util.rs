//! The attributes record of an open request.

use vstd::layout::size_of;
use vstd::prelude::*;

verus! {

/// `windows_sys::Wdk::Foundation::OBJECT_ATTRIBUTES`, the record that the operating
/// system reads. This crate asks for its size and never looks inside.
#[verifier::external_type_specification]
#[verifier::external_body]
pub struct ExObjectAttributes(windows_sys::Wdk::Foundation::OBJECT_ATTRIBUTES);

/// What an attributes record holds, in plain values: the object name is written out,
/// a handle or a pointer is its address, and zero stands for null.
#[allow(non_snake_case)]
#[derive(Debug)]
pub struct ObjectAttributes {
    /// The size of the record that the operating system reads, in bytes.
    pub Length: u32,
    /// The handle of the directory that the name is relative to.
    pub RootDirectory: usize,
    /// The name of the object, in UTF-16.
    pub ObjectName: Vec<u16>,
    /// The attribute flags.
    pub Attributes: u32,
    /// The address of a security descriptor.
    pub SecurityDescriptor: usize,
    /// The address of a security quality of service record.
    pub SecurityQualityOfService: usize,
}

/// The value that `Length` takes: the size of the record, cut to 32 bits.
pub open spec fn object_attributes_length() -> u32 {
    size_of::<windows_sys::Wdk::Foundation::OBJECT_ATTRIBUTES>() as u32
}

/// Fills in an attributes record: the name `n`, the flags `a`, the root directory `r`
/// and the security descriptor `s`, with the record's size, and without a security
/// quality of service.
#[allow(non_snake_case)]
pub fn InitializeObjectAttributes(p: &mut ObjectAttributes, n: Vec<u16>, a: u32, r: usize, s: usize)
    ensures
        final(p).Length == object_attributes_length(),
        final(p).RootDirectory == r,
        final(p).ObjectName == n,
        final(p).Attributes == a,
        final(p).SecurityDescriptor == s,
        final(p).SecurityQualityOfService == 0,
{
    let size: usize = core::mem::size_of::<windows_sys::Wdk::Foundation::OBJECT_ATTRIBUTES>();
    p.Length = #[verifier::truncate] (size as u32);
    p.RootDirectory = r;
    p.ObjectName = n;
    p.Attributes = a;
    p.SecurityDescriptor = s;
    p.SecurityQualityOfService = 0;
}

} // verus!
