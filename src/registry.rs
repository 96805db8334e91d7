use vstd::prelude::*;

use crate::geometry::BufferDescription;
use crate::pipeline::WgpuWrapper;

verus! {

/// Kind of device behind an adapter.
#[derive(Clone, Copy, Debug, PartialEq, Eq, Structural)]
pub enum DeviceType {
    Other,
    IntegratedGpu,
    DiscreteGpu,
    VirtualGpu,
    Cpu,
}

/// What an adapter reports of itself: its name, its backend's name and its kind.
pub struct AdapterInfo {
    pub name: String,
    pub backend: String,
    pub device_type: DeviceType,
}

/// The adapters of the latest enumeration, and the one selected for new pipelines.
pub struct AdapterRegistry {
    pub adapters: Vec<AdapterInfo>,
    pub selected: Option<AdapterInfo>,
}

/// `name (backend)`, the name under which an adapter is listed.
pub open spec fn display_name(info: AdapterInfo) -> Seq<char> {
    info.name@ + " ("@ + info.backend@ + ")"@
}

/// Two adapter descriptions that read the same.
pub open spec fn same_info(a: AdapterInfo, b: AdapterInfo) -> bool {
    a.name@ == b.name@ && a.backend@ == b.backend@ && a.device_type == b.device_type
}

impl AdapterInfo {
    /// A copy of this description.
    pub fn duplicate(&self) -> (r: AdapterInfo)
        ensures
            same_info(r, *self),
    {
        AdapterInfo {
            name: self.name.clone(),
            backend: self.backend.clone(),
            device_type: self.device_type,
        }
    }

    /// The name under which the adapter is listed.
    pub fn display(&self) -> (r: String)
        ensures
            r@ == display_name(*self),
    {
        let mut s = self.name.clone();
        s.append(" (");
        s.append(self.backend.as_str());
        s.append(")");
        s
    }
}

impl AdapterRegistry {
    /// A registry with nothing enumerated and nothing selected.
    pub fn new() -> (r: AdapterRegistry)
        ensures
            r.adapters@.len() == 0,
            r.selected is None,
    {
        AdapterRegistry { adapters: Vec::new(), selected: None }
    }
}

impl WgpuWrapper {
    /// Records a fresh enumeration of the adapters and returns their names, in order.
    pub fn list_devices(registry: &mut AdapterRegistry, adapters: Vec<AdapterInfo>) -> (r: Vec<String>)
        ensures
            final(registry).adapters@ == adapters@,
            final(registry).selected == old(registry).selected,
            r@.len() == adapters@.len(),
            forall|i: int| 0 <= i < r@.len() ==> #[trigger] r@[i]@ == display_name(adapters@[i]),
    {
        let mut names: Vec<String> = Vec::new();
        let mut i: usize = 0;
        while i < adapters.len()
            invariant
                i <= adapters@.len(),
                names@.len() == i,
                forall|j: int| 0 <= j < i ==> #[trigger] names@[j]@ == display_name(adapters@[j]),
            decreases adapters@.len() - i,
        {
            names.push(adapters[i].display());
            i = i + 1;
        }
        registry.adapters = adapters;
        names
    }

    /// Selects the adapter at `index` of the latest enumeration. Nothing is
    /// selected, and `None` returned, when the index is out of range.
    pub fn set_device(registry: &mut AdapterRegistry, index: usize, _buffers: &BufferDescription) -> (r: Option<()>)
        ensures
            r is Some <==> index < old(registry).adapters@.len(),
            final(registry).adapters@ == old(registry).adapters@,
            r is Some ==> (final(registry).selected matches Some(a) && same_info(a, old(registry).adapters@[index as int])),
            r is None ==> final(registry).selected == old(registry).selected,
    {
        if index < registry.adapters.len() {
            let chosen = registry.adapters[index].duplicate();
            registry.selected = Some(chosen);
            Some(())
        } else {
            None
        }
    }

    /// The listed name of the selected adapter, if one is selected.
    pub fn get_info(registry: &AdapterRegistry) -> (r: Option<String>)
        ensures
            r is Some <==> registry.selected is Some,
            r matches Some(s) ==> s@ == display_name(registry.selected.unwrap()),
    {
        match &registry.selected {
            Some(a) => Some(a.display()),
            None => None,
        }
    }

    /// Selects the adapter that a high-performance request returned, unless there
    /// was none or it is a software emulation on the CPU. Returns its name and
    /// the name under which it is listed, `[wgpu] name (backend)`.
    pub fn initialize_context(registry: &mut AdapterRegistry, requested: Option<AdapterInfo>) -> (r: Option<(String, String)>)
        ensures
            r is Some <==> (requested matches Some(a) && a.device_type != DeviceType::Cpu),
            r matches Some(names) ==> {
                &&& names.0@ == requested.unwrap().name@
                &&& names.1@ == "[wgpu] "@ + display_name(requested.unwrap())
                &&& final(registry).selected == requested
            },
            r is None ==> final(registry).selected == old(registry).selected,
            final(registry).adapters@ == old(registry).adapters@,
    {
        match requested {
            Some(info) => {
                if info.device_type == DeviceType::Cpu {
                    return None;
                }
                let name = info.name.clone();
                let mut list_name = String::from_str("[wgpu] ");
                let shown = info.display();
                list_name.append(shown.as_str());
                registry.selected = Some(info);
                Some((name, list_name))
            },
            None => None,
        }
    }
}

} // verus!
