//! Resolution of stack addresses to module offsets.

use crate::text;
use crate::text::{cat2, cat3, hex_padded_text, hex_text};
use vstd::prelude::*;

verus! {

/// One frame of a resolved stack.
#[derive(Debug)]
pub struct StackFrame {
    pub value: String,
    pub resolved: bool,
}

/// The time span during which a module occupied a range of addresses.
#[derive(Debug)]
pub struct ModuleInterval {
    pub base: u64,
    pub size: u64,
    pub name: String,
    pub loaded_at: i64,
    pub unloaded_at: Option<i64>,
}

/// The mathematical form of a stack frame.
pub struct FrameView {
    pub value: Seq<char>,
    pub resolved: bool,
}

/// The mathematical form of a module interval.
pub struct ModuleView {
    pub base: u64,
    pub size: u64,
    pub name: Seq<char>,
    pub loaded_at: i64,
    pub unloaded_at: Option<i64>,
}

impl View for StackFrame {
    type V = FrameView;

    open spec fn view(&self) -> FrameView {
        FrameView { value: self.value@, resolved: self.resolved }
    }
}

impl View for ModuleInterval {
    type V = ModuleView;

    open spec fn view(&self) -> ModuleView {
        ModuleView {
            base: self.base,
            size: self.size,
            name: self.name@,
            loaded_at: self.loaded_at,
            unloaded_at: self.unloaded_at,
        }
    }
}

/// The views of a list of modules.
pub open spec fn module_views(modules: Seq<ModuleInterval>) -> Seq<ModuleView> {
    modules.map_values(|m: ModuleInterval| m@)
}

impl ModuleView {
    /// Whether the module was loaded at `timestamp` in a range that holds `address`.
    /// The range never reaches the last address of the address space.
    pub open spec fn covers(self, address: u64, timestamp: i64) -> bool {
        &&& self.base <= address < self.base + self.size
        &&& address < u64::MAX
        &&& self.loaded_at <= timestamp
        &&& self.unloaded_at matches Some(end) ==> timestamp <= end
    }
}

/// The index of the covering module that was loaded last; of several loaded at the same
/// time, the one recorded last.
pub open spec fn active_module(modules: Seq<ModuleView>, address: u64, timestamp: i64) -> Option<int>
    decreases modules.len(),
{
    if modules.len() == 0 {
        None
    } else {
        let earlier = active_module(modules.drop_last(), address, timestamp);
        let last = modules.last();
        if last.covers(address, timestamp) && (earlier matches Some(i) ==> modules[i].loaded_at
            <= last.loaded_at) {
            Some(modules.len() - 1)
        } else {
            earlier
        }
    }
}

/// The frame that stands for an address: an offset into the active module, or else the
/// address itself.
pub open spec fn frame_of(modules: Seq<ModuleView>, address: u64, timestamp: i64) -> FrameView {
    match active_module(modules, address, timestamp) {
        Some(i) => FrameView {
            value: modules[i].name + "+0x"@ + text::hex((address - modules[i].base) as nat),
            resolved: true,
        },
        None => FrameView { value: hex64_view(address), resolved: false },
    }
}

/// The frames that stand for a list of addresses.
pub open spec fn frames_of(
    modules: Seq<ModuleView>,
    addresses: Seq<u64>,
    timestamp: i64,
) -> Seq<FrameView> {
    addresses.map_values(|a: u64| frame_of(modules, a, timestamp))
}

/// A 64 bit number as `0x` and sixteen hexadecimal digits.
pub open spec fn hex64_view(value: u64) -> Seq<char> {
    "0x"@ + text::zero_padded(text::hex(value as nat), 16)
}

/// A 32 bit number as `0x` and eight hexadecimal digits.
pub open spec fn hex32_view(value: u32) -> Seq<char> {
    "0x"@ + text::zero_padded(text::hex(value as nat), 8)
}

/// The active module covers the address, no covering module was loaded later, and there is
/// one whenever any module covers the address.
pub proof fn active_module_is_latest(modules: Seq<ModuleView>, address: u64, timestamp: i64)
    ensures
        match active_module(modules, address, timestamp) {
            Some(i) => {
                &&& 0 <= i < modules.len()
                &&& modules[i].covers(address, timestamp)
                &&& forall|j: int|
                    #![trigger modules[j]]
                    0 <= j < modules.len() && modules[j].covers(address, timestamp)
                        ==> modules[j].loaded_at < modules[i].loaded_at || (modules[j].loaded_at
                        == modules[i].loaded_at && j <= i)
            },
            None => forall|j: int|
                #![trigger modules[j]]
                0 <= j < modules.len() ==> !modules[j].covers(address, timestamp),
        },
    decreases modules.len(),
{
    if modules.len() > 0 {
        active_module_is_latest(modules.drop_last(), address, timestamp);
        assert forall|j: int| 0 <= j < modules.len() - 1 implies #[trigger] modules[j]
            == modules.drop_last()[j] by {}
    }
}

impl ModuleInterval {
    /// Whether the module was loaded at `timestamp` in a range that holds `address`.
    pub fn contains_at(&self, address: u64, timestamp: i64) -> (r: bool)
        ensures
            r == self@.covers(address, timestamp),
    {
        if address < self.base || address >= self.base.saturating_add(self.size) {
            return false;
        }
        if timestamp < self.loaded_at {
            return false;
        }
        match self.unloaded_at {
            Some(end) => timestamp <= end,
            None => true,
        }
    }

    /// A copy of the interval.
    pub fn duplicate(&self) -> (r: ModuleInterval)
        ensures
            r@ == self@,
    {
        ModuleInterval {
            base: self.base,
            size: self.size,
            name: self.name.clone(),
            loaded_at: self.loaded_at,
            unloaded_at: self.unloaded_at,
        }
    }
}

/// Resolves every address of a stack, in order.
pub fn resolve_stack_addresses(
    addresses: &[u64],
    modules: &[ModuleInterval],
    timestamp: i64,
) -> (r: Vec<StackFrame>)
    ensures
        r@.map_values(|f: StackFrame| f@) == frames_of(module_views(modules@), addresses@, timestamp),
{
    let mut out: Vec<StackFrame> = Vec::new();
    let mut i: usize = 0;
    while i < addresses.len()
        invariant
            i <= addresses@.len(),
            out@.len() == i,
            forall|j: int|
                0 <= j < i ==> (#[trigger] out@[j])@ == frame_of(
                    module_views(modules@),
                    addresses@[j],
                    timestamp,
                ),
        decreases addresses@.len() - i,
    {
        out.push(resolve_stack_address(addresses[i], modules, timestamp));
        i += 1;
    }
    assert(out@.map_values(|f: StackFrame| f@) =~= frames_of(
        module_views(modules@),
        addresses@,
        timestamp,
    ));
    out
}

/// Resolves one address against the modules that were loaded at `timestamp`.
pub fn resolve_stack_address(address: u64, modules: &[ModuleInterval], timestamp: i64) -> (r:
    StackFrame)
    ensures
        r@ == frame_of(module_views(modules@), address, timestamp),
{
    let ghost all = module_views(modules@);
    let mut best: Option<usize> = None;
    let mut i: usize = 0;
    while i < modules.len()
        invariant
            i <= modules@.len(),
            all == module_views(modules@),
            match best {
                Some(b) => b < i && active_module(all.take(i as int), address, timestamp) == Some(
                    b as int,
                ),
                None => active_module(all.take(i as int), address, timestamp) is None,
            },
        decreases modules@.len() - i,
    {
        let ghost before = all.take(i as int);
        let later = match best {
            Some(b) => modules[b].loaded_at <= modules[i].loaded_at,
            None => true,
        };
        if later && modules[i].contains_at(address, timestamp) {
            best = Some(i);
        }
        i += 1;
        proof {
            let now = all.take(i as int);
            assert(now.drop_last() =~= before);
            assert(now.last() == modules@[i as int - 1]@);
        }
    }
    assert(all.take(modules@.len() as int) =~= all);
    proof {
        active_module_is_latest(all, address, timestamp);
    }
    match best {
        Some(b) => {
            let offset: u64 = address - modules[b].base;
            let number = hex_text(offset);
            StackFrame {
                value: cat3(modules[b].name.as_str(), "+0x", number.as_str()),
                resolved: true,
            }
        },
        None => StackFrame { value: hex64(address), resolved: false },
    }
}

/// Whether an event belongs to the traced process.
pub fn event_matches_target(pid: u32, target_pid: u32) -> (r: bool)
    ensures
        r == (pid == target_pid),
{
    pid == target_pid
}

/// Writes a 64 bit number as `0x` and sixteen hexadecimal digits.
pub fn hex64(value: u64) -> (r: String)
    ensures
        r@ == hex64_view(value),
{
    let number = hex_padded_text(value, 16);
    cat2("0x", number.as_str())
}

/// Writes a 32 bit number as `0x` and eight hexadecimal digits.
pub fn hex32(value: u32) -> (r: String)
    ensures
        r@ == hex32_view(value),
{
    let number = hex_padded_text(value as u64, 8);
    cat2("0x", number.as_str())
}

} // verus!
