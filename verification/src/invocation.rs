use vstd::prelude::*;
use vstd::utf8::encode_utf8;

verus! {

/// The JNI status code of success; every other code is an error.
pub const JNI_OK: i32 = 0;

/// Whether text can be handed to the JVM as a NUL terminated C string: its
/// UTF-8 encoding holds no zero byte.
pub open spec fn c_compatible(text: Seq<char>) -> bool {
    !encode_utf8(text).contains(0u8)
}

/// Whether `argument` can be passed to the JVM as an option string.
pub fn is_c_compatible(argument: &str) -> (compatible: bool)
    ensures
        compatible == c_compatible(argument@),
{
    let bytes = argument.as_bytes();
    let mut i: usize = 0;
    while i < bytes.len()
        invariant
            bytes@ == encode_utf8(argument@),
            i <= bytes@.len(),
            forall|j: int| 0 <= j < i ==> bytes@[j] != 0u8,
        decreases bytes@.len() - i,
    {
        if bytes[i] == 0u8 {
            assert(encode_utf8(argument@).contains(0u8)) by {
                assert(bytes@[i as int] == 0u8);
            }
            return false;
        }
        i = i + 1;
    }
    true
}

/// The fixed part of the arguments `JNI_CreateJavaVM` receives; the option
/// strings go alongside, in the order given.
#[derive(Debug, Clone, Copy, PartialEq, Eq)]
pub struct VmInitArgs {
    /// The JNI version requested.
    pub version: i32,
    /// How many option strings follow.
    pub nOptions: i32,
    /// 1 if the JVM is to ignore options it does not recognize, else 0.
    pub ignoreUnrecognized: u8,
}

/// The arguments for creating a JVM with the given option strings.
///
/// No option may contain a NUL character, and there may be no more than
/// `i32::MAX` of them.
pub fn vm_init_args(version: i32, arguments: &Vec<String>, ignore_unrecognized_options: bool) -> (init: VmInitArgs)
    requires
        arguments@.len() <= i32::MAX,
        forall|i: int| 0 <= i < arguments@.len() ==> c_compatible(#[trigger] arguments@[i]@),
    ensures
        init.version == version,
        init.nOptions == arguments@.len(),
        init.ignoreUnrecognized == (if ignore_unrecognized_options { 1u8 } else { 0u8 }),
{
    let n: usize = arguments.len();
    VmInitArgs {
        version,
        nOptions: n as i32,
        ignoreUnrecognized: if ignore_unrecognized_options { 1u8 } else { 0u8 },
    }
}

/// The bytes of a NUL terminated C string holding `text`: its UTF-8 encoding
/// followed by a zero byte.
pub open spec fn c_string_bytes(text: Seq<char>) -> Seq<u8> {
    encode_utf8(text).push(0u8)
}

/// The option strings handed to the JVM, in the order given, each as the bytes
/// of a NUL terminated C string.
pub fn vm_option_strings(arguments: &Vec<String>) -> (options: Vec<Vec<u8>>)
    ensures
        options@.len() == arguments@.len(),
        forall|i: int| 0 <= i < arguments@.len() ==> (#[trigger] options@[i])@ == c_string_bytes(arguments@[i]@),
{
    let mut options: Vec<Vec<u8>> = Vec::new();
    let mut i: usize = 0;
    while i < arguments.len()
        invariant
            i <= arguments@.len(),
            options@.len() == i,
            forall|k: int| 0 <= k < i ==> (#[trigger] options@[k])@ == c_string_bytes(arguments@[k]@),
        decreases arguments@.len() - i,
    {
        let text: &str = arguments[i].as_str();
        let bytes = text.as_bytes();
        let mut option: Vec<u8> = Vec::new();
        let mut j: usize = 0;
        while j < bytes.len()
            invariant
                bytes@ == encode_utf8(arguments@[i as int]@),
                j <= bytes@.len(),
                option@ == bytes@.subrange(0, j as int),
            decreases bytes@.len() - j,
        {
            option.push(bytes[j]);
            j = j + 1;
        }
        assert(option@ =~= bytes@);
        option.push(0u8);
        options.push(option);
        i = i + 1;
    }
    options
}

/// What `JNI_CreateJavaVM` returned, checked: its status code on failure, else
/// the addresses of the JavaVM and of the JNIEnv of the current thread. On
/// success the JVM must have set both.
pub fn created_vm(status: i32, vm: usize, env: usize) -> (created: Result<(usize, usize), i32>)
    requires
        status == JNI_OK ==> vm != 0 && env != 0,
    ensures
        created == (if status == JNI_OK { Ok((vm, env)) } else { Err::<(usize, usize), i32>(status) }),
{
    if status != JNI_OK {
        return Err(status);
    }
    Ok((vm, env))
}

/// The slots `JNI_GetCreatedJavaVMs` fills, after it reported `status` and
/// `count` with the addresses in `found`: slot `i` gets the JavaVM at
/// `found[i]` when `i < count` and nothing otherwise.
pub open spec fn created_vm_slots(slots: nat, count: int, found: Seq<usize>) -> Seq<Option<usize>> {
    Seq::new(slots, |i: int| if i < count { Some(found[i]) } else { None })
}

/// Hands out what `JNI_GetCreatedJavaVMs` reported: its status code on
/// failure, leaving `vms` untouched; else the number of JavaVMs that exist, with
/// the first of them stored into `vms` and every other slot of `vms` emptied.
/// A smaller `vms` is no error: the count still says how many slots it takes.
///
/// On success the count is never negative, each reported JavaVM is non-null,
/// and `found` holds every JavaVM a slot of `vms` receives.
pub fn store_created_vms(status: i32, count: i32, found: &Vec<usize>, vms: &mut Vec<Option<usize>>) -> (stored: Result<usize, i32>)
    requires
        status == JNI_OK ==> {
            &&& count >= 0
            &&& forall|i: int| 0 <= i < count && i < found@.len() ==> found@[i] != 0
            &&& (count < old(vms)@.len() ==> count <= found@.len())
            &&& (count >= old(vms)@.len() ==> old(vms)@.len() <= found@.len())
        },
    ensures
        status != JNI_OK ==> stored == Err::<usize, i32>(status) && final(vms)@ == old(vms)@,
        status == JNI_OK ==> stored == Ok::<usize, i32>(count as usize) && final(vms)@ == created_vm_slots(
            old(vms)@.len(),
            count as int,
            found@,
        ),
{
    if status != JNI_OK {
        return Err(status);
    }
    let n: usize = count as usize;
    let len = vms.len();
    let mut i: usize = 0;
    while i < len
        invariant
            len == vms@.len(),
            len == old(vms)@.len(),
            n == count,
            count >= 0,
            i <= len,
            count < len ==> count <= found@.len(),
            count >= len ==> len <= found@.len(),
            forall|j: int| 0 <= j < i ==> vms@[j] == (if j < count { Some(found@[j]) } else { None::<usize> }),
        decreases len - i,
    {
        if i < n {
            vms.set(i, Some(found[i]));
        } else {
            vms.set(i, None);
        }
        i = i + 1;
    }
    assert(vms@ =~= created_vm_slots(len as nat, count as int, found@));
    Ok(n)
}

/// The first JavaVM `JNI_GetCreatedJavaVMs` reported, if any; its status code
/// on failure. On success the count is never negative, each reported JavaVM
/// in `found` is non-null, and `found` holds the first one if there is one.
pub fn first_created_vm(status: i32, count: i32, found: &Vec<usize>) -> (first: Result<Option<usize>, i32>)
    requires
        status == JNI_OK ==> {
            &&& count >= 0
            &&& forall|i: int| 0 <= i < count && i < found@.len() ==> found@[i] != 0
            &&& (count > 0 ==> found@.len() > 0)
        },
    ensures
        first == (if status != JNI_OK {
            Err::<Option<usize>, i32>(status)
        } else if count > 0 {
            Ok(Some(found@[0]))
        } else {
            Ok(None)
        }),
{
    let mut vms: Vec<Option<usize>> = vec![None];
    match store_created_vms(status, count, found, &mut vms) {
        Ok(_) => Ok(vms[0]),
        Err(e) => Err(e),
    }
}

} // verus!
