//! What the Java side can ask of the native library between calls: the name
//! of the GPU and whether ray tracing is on. The name is recorded once, by
//! the first initialisation that succeeds; the ray-tracing flag by each.

use vstd::prelude::*;

verus! {

/// What the bridge remembers, as its callers see it.
pub struct BridgeView {
    pub gpu_name: Option<Seq<char>>,
    pub rt_flag: bool,
}

/// The bridge after an initialisation on GPU `name` succeeded with ray
/// tracing `rt`: a name already recorded stays.
pub open spec fn recorded(v: BridgeView, name: Seq<char>, rt: bool) -> BridgeView {
    BridgeView {
        gpu_name: match v.gpu_name {
            Some(n) => Some(n),
            None => Some(name),
        },
        rt_flag: rt,
    }
}

/// The name the bridge reports: the recorded one, or "Unknown".
pub open spec fn reported_name(v: BridgeView) -> Seq<char> {
    match v.gpu_name {
        Some(n) => n,
        None => "Unknown"@,
    }
}

/// The GPU name is written once: after any initialisation has succeeded,
/// later ones leave the reported name as it was, while the ray-tracing flag
/// always follows the latest one.
pub proof fn gpu_name_is_written_once(v: BridgeView, first: Seq<char>, rt1: bool, later: Seq<char>, rt2: bool)
    ensures
        reported_name(recorded(recorded(v, first, rt1), later, rt2)) == reported_name(recorded(v, first, rt1)),
        v.gpu_name is None ==> reported_name(recorded(v, first, rt1)) == first,
        recorded(recorded(v, first, rt1), later, rt2).rt_flag == rt2,
{
}

/// Until an initialisation succeeds the reported name is "Unknown".
pub proof fn unknown_before_init(v: BridgeView)
    requires
        v.gpu_name is None,
    ensures
        reported_name(v) == "Unknown"@,
{
}

/// The state kept across calls from Java.
pub struct NativeBridge {
    gpu_name: Option<String>,
    rt_flag: bool,
}

impl View for NativeBridge {
    type V = BridgeView;

    closed spec fn view(&self) -> BridgeView {
        BridgeView {
            gpu_name: match self.gpu_name {
                Some(n) => Some(n@),
                None => None,
            },
            rt_flag: self.rt_flag,
        }
    }
}

impl NativeBridge {
    /// The state before any initialisation: no name, ray tracing off.
    pub fn new() -> (b: NativeBridge)
        ensures
            b@ == (BridgeView { gpu_name: None, rt_flag: false }),
    {
        NativeBridge { gpu_name: None, rt_flag: false }
    }

    /// Records a successful initialisation on GPU `gpu_name` with ray tracing
    /// `rt`. Only the first name is kept; the flag is always updated.
    pub fn record_init(&mut self, gpu_name: &str, rt: bool)
        ensures
            final(self)@ == recorded(old(self)@, gpu_name@, rt),
    {
        if self.gpu_name.is_none() {
            self.gpu_name = Some(String::from_str(gpu_name));
        }
        self.rt_flag = rt;
    }

    /// The GPU name for Java: the recorded one, or "Unknown" when no
    /// initialisation has succeeded.
    pub fn gpu_name(&self) -> (name: String)
        ensures
            name@ == reported_name(self@),
    {
        match &self.gpu_name {
            Some(n) => n.clone(),
            None => String::from_str("Unknown"),
        }
    }

    /// Whether ray tracing is on, as a JNI `jboolean` (1 or 0).
    pub fn is_rt_supported(&self) -> (flag: u8)
        ensures
            flag == (if self@.rt_flag { 1u8 } else { 0u8 }),
    {
        if self.rt_flag {
            1
        } else {
            0
        }
    }
}

} // verus!
