use vstd::prelude::*;
use crate::errors::LoadFromLibraryError;

verus! {

/// The two entry points of the JVM shared object, held by address.
///
/// Both addresses are non-zero: a link is only ever built from resolved symbols.
#[derive(Debug, Clone, Copy)]
pub struct JNIDynamicLink {
    create_java_vm: usize,
    get_created_java_vms: usize,
}

impl JNIDynamicLink {
    #[verifier::type_invariant]
    spec fn addresses_resolved(self) -> bool {
        self.create_java_vm != 0 && self.get_created_java_vms != 0
    }

    /// Address of `JNI_CreateJavaVM` held by this link.
    pub closed spec fn create_address(self) -> usize {
        self.create_java_vm
    }

    /// Address of `JNI_GetCreatedJavaVMs` held by this link.
    pub closed spec fn get_created_address(self) -> usize {
        self.get_created_java_vms
    }

    /// The link holding the two given addresses.
    pub closed spec fn spec_new(create: usize, get_created: usize) -> Self {
        JNIDynamicLink { create_java_vm: create, get_created_java_vms: get_created }
    }

    /// A link built from two addresses holds exactly those addresses.
    pub proof fn lemma_spec_new(create: usize, get_created: usize)
        ensures
            Self::spec_new(create, get_created).create_address() == create,
            Self::spec_new(create, get_created).get_created_address() == get_created,
    {
    }

    /// Builds a link from the two entry points.
    /// Neither address may be null.
    pub fn new(JNI_CreateJavaVM: usize, JNI_GetCreatedJavaVMs: usize) -> (link: Self)
        requires
            JNI_CreateJavaVM != 0,
            JNI_GetCreatedJavaVMs != 0,
        ensures
            link.create_address() == JNI_CreateJavaVM,
            link.get_created_address() == JNI_GetCreatedJavaVMs,
            link == Self::spec_new(JNI_CreateJavaVM, JNI_GetCreatedJavaVMs),
    {
        JNIDynamicLink { create_java_vm: JNI_CreateJavaVM, get_created_java_vms: JNI_GetCreatedJavaVMs }
    }

    /// Builds a link from the two entry points, or `None` if either is null.
    pub fn try_new(JNI_CreateJavaVM: usize, JNI_GetCreatedJavaVMs: usize) -> (link: Option<Self>)
        ensures
            link is Some <==> JNI_CreateJavaVM != 0 && JNI_GetCreatedJavaVMs != 0,
            link matches Some(l) ==> l == Self::spec_new(JNI_CreateJavaVM, JNI_GetCreatedJavaVMs),
    {
        if JNI_CreateJavaVM == 0 || JNI_GetCreatedJavaVMs == 0 {
            None
        } else {
            Some(Self::new(JNI_CreateJavaVM, JNI_GetCreatedJavaVMs))
        }
    }

    /// Address of `JNI_CreateJavaVM`; never null.
    pub fn JNI_CreateJavaVM(&self) -> (address: usize)
        ensures
            address == self.create_address(),
            address != 0,
    {
        proof {
            use_type_invariant(self);
        }
        self.create_java_vm
    }

    /// Address of `JNI_GetCreatedJavaVMs`; never null.
    pub fn JNI_GetCreatedJavaVMs(&self) -> (address: usize)
        ensures
            address == self.get_created_address(),
            address != 0,
    {
        proof {
            use_type_invariant(self);
        }
        self.get_created_java_vms
    }
}

/// Whether the JVM entry points have been linked.
pub fn is_jvm_loaded(link: &Option<JNIDynamicLink>) -> (loaded: bool)
    ensures
        loaded == link.is_some(),
{
    link.is_some()
}

/// Links the JVM entry points, unless they are linked already.
///
/// Only one JVM can exist per process, so a second call leaves the link as it
/// is. Returns true if this call linked the entry points, false if they were
/// linked before. The addresses must not be null when the slot is empty.
pub fn init_dynamic_link(
    link: &mut Option<JNIDynamicLink>,
    JNI_CreateJavaVM: usize,
    JNI_GetCreatedJavaVMs: usize,
) -> (initialized: bool)
    requires
        old(link).is_none() ==> JNI_CreateJavaVM != 0 && JNI_GetCreatedJavaVMs != 0,
    ensures
        initialized == old(link).is_none(),
        initialized ==> (*final(link) matches Some(l) && l.create_address() == JNI_CreateJavaVM
            && l.get_created_address() == JNI_GetCreatedJavaVMs),
        !initialized ==> *final(link) == *old(link),
        *final(link) == after_init(*old(link), JNI_CreateJavaVM, JNI_GetCreatedJavaVMs),
{
    if link.is_some() {
        return false;
    }
    *link = Some(JNIDynamicLink::new(JNI_CreateJavaVM, JNI_GetCreatedJavaVMs));
    true
}

/// The link slot after a call of `init_dynamic_link` with these addresses.
pub open spec fn after_init(link: Option<JNIDynamicLink>, create: usize, get_created: usize) -> Option<
    JNIDynamicLink,
> {
    if link is None {
        Some(JNIDynamicLink::spec_new(create, get_created))
    } else {
        link
    }
}

/// The link slot after a load of the JVM shared object ended with `result`.
pub open spec fn after_load(
    link: Option<JNIDynamicLink>,
    result: Result<JNIDynamicLink, LoadFromLibraryError>,
) -> Option<JNIDynamicLink> {
    match result {
        Ok(loaded) => Some(loaded),
        Err(_) => link,
    }
}

/// Stores the link a load of the JVM shared object produced: on success the
/// slot holds the loaded link and `Ok(())` is returned; on failure the slot is
/// left as it was and the error is returned.
pub fn store_load_result(
    link: &mut Option<JNIDynamicLink>,
    result: Result<JNIDynamicLink, LoadFromLibraryError>,
) -> (stored: Result<(), LoadFromLibraryError>)
    ensures
        *final(link) == after_load(*old(link), result),
        result is Err ==> *final(link) == *old(link),
        result matches Ok(loaded) ==> *final(link) == Some(loaded),
        stored is Ok <==> result is Ok,
        result matches Err(e) ==> stored == Err::<(), LoadFromLibraryError>(e),
{
    match result {
        Ok(loaded) => {
            *link = Some(loaded);
            Ok(())
        },
        Err(e) => Err(e),
    }
}

/// A load that fails leaves the link slot as it was; a load that succeeds
/// leaves the slot holding exactly the link it loaded.
pub proof fn lemma_load_keeps_or_sets_link(
    link: Option<JNIDynamicLink>,
    result: Result<JNIDynamicLink, LoadFromLibraryError>,
)
    ensures
        result is Err ==> after_load(link, result) == link,
        result matches Ok(loaded) ==> after_load(link, result) == Some(loaded),
{
}

/// Linking an already linked slot leaves it as it was; linking an empty slot
/// stores exactly the two given addresses.
pub proof fn lemma_init_keeps_or_sets_link(link: Option<JNIDynamicLink>, create: usize, get_created: usize)
    ensures
        link is Some ==> after_init(link, create, get_created) == link,
        link is None ==> (after_init(link, create, get_created) matches Some(l) && l.create_address() == create
            && l.get_created_address() == get_created),
{
    JNIDynamicLink::lemma_spec_new(create, get_created);
}

/// A call that changes who holds the link slot.
pub enum LinkCall {
    /// `init_dynamic_link` with these two addresses.
    Init(usize, usize),
    /// A load of the JVM shared object that ended with this result.
    Load(Result<JNIDynamicLink, LoadFromLibraryError>),
}

/// Whether the call reports success: `init_dynamic_link` returning true, or a
/// load ending in `Ok`.
pub open spec fn call_succeeds(link: Option<JNIDynamicLink>, call: LinkCall) -> bool {
    match call {
        LinkCall::Init(_, _) => link is None,
        LinkCall::Load(result) => result is Ok,
    }
}

/// The link slot after one call.
pub open spec fn after_call(link: Option<JNIDynamicLink>, call: LinkCall) -> Option<JNIDynamicLink> {
    match call {
        LinkCall::Init(create, get_created) => after_init(link, create, get_created),
        LinkCall::Load(result) => after_load(link, result),
    }
}

/// The link slot after the calls, in order.
pub open spec fn after_calls(link: Option<JNIDynamicLink>, calls: Seq<LinkCall>) -> Option<JNIDynamicLink>
    decreases calls.len(),
{
    if calls.len() == 0 {
        link
    } else {
        after_calls(after_call(link, calls[0]), calls.drop_first())
    }
}

/// Whether one of the calls, in order from `link`, reports success.
pub open spec fn some_call_succeeds(link: Option<JNIDynamicLink>, calls: Seq<LinkCall>) -> bool
    decreases calls.len(),
{
    if calls.len() == 0 {
        false
    } else {
        call_succeeds(link, calls[0]) || some_call_succeeds(after_call(link, calls[0]), calls.drop_first())
    }
}

/// The JVM is linked after a history of calls exactly when it was linked
/// before, or one of the calls reported success; from an empty slot, exactly
/// when one of them did.
pub proof fn lemma_loaded_after_calls(link: Option<JNIDynamicLink>, calls: Seq<LinkCall>)
    ensures
        after_calls(link, calls) is Some <==> (link is Some || some_call_succeeds(link, calls)),
    decreases calls.len(),
{
    if calls.len() > 0 {
        lemma_loaded_after_calls(after_call(link, calls[0]), calls.drop_first());
    }
}

/// The linked entry points; the slot must hold them.
pub fn get_link(link: &Option<JNIDynamicLink>) -> (linked: JNIDynamicLink)
    requires
        link.is_some(),
    ensures
        *link == Some(linked),
{
    link.unwrap()
}

} // verus!
