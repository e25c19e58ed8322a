//! The routing tables: from a location code to the device and register that
//! stand for it, and from a pair of locations to the coils that route
//! between them. The tables are filled once and only read afterwards. An
//! entry that is added later under the same key replaces the earlier one.

use vstd::prelude::*;
use crate::lookup::{is_last, last_index, lemma_last_index, lemma_last_is_unique};

verus! {

/// Where one location is found: the device, the register and the alias.
#[derive(Debug, PartialEq, Eq)]
pub struct LocationEntry {
    pub location_code: String,
    pub device_key: String,
    pub register_offset: u16,
    pub alias: String,
}

/// A location entry as a value.
pub struct LocationEntryView {
    pub location_code: Seq<char>,
    pub device_key: Seq<char>,
    pub register_offset: u16,
    pub alias: Seq<char>,
}

impl View for LocationEntry {
    type V = LocationEntryView;

    open spec fn view(&self) -> LocationEntryView {
        LocationEntryView {
            location_code: self.location_code@,
            device_key: self.device_key@,
            register_offset: self.register_offset,
            alias: self.alias@,
        }
    }
}

/// How to route from one location to another: the device, the coil to
/// switch off, the coil to switch on, and what the route is.
#[derive(Debug, PartialEq, Eq)]
pub struct ControlMapping {
    pub source: String,
    pub destination: String,
    pub device_key: String,
    pub off_coil: u16,
    pub on_coil: u16,
    pub description: String,
}

/// A control mapping as a value.
pub struct ControlMappingView {
    pub source: Seq<char>,
    pub destination: Seq<char>,
    pub device_key: Seq<char>,
    pub off_coil: u16,
    pub on_coil: u16,
    pub description: Seq<char>,
}

impl View for ControlMapping {
    type V = ControlMappingView;

    open spec fn view(&self) -> ControlMappingView {
        ControlMappingView {
            source: self.source@,
            destination: self.destination@,
            device_key: self.device_key@,
            off_coil: self.off_coil,
            on_coil: self.on_coil,
            description: self.description@,
        }
    }
}

/// The codes of the entries, in the order of the table.
pub open spec fn location_codes(entries: Seq<LocationEntryView>) -> Seq<Seq<char>> {
    entries.map_values(|entry: LocationEntryView| entry.location_code)
}

/// The pairs of the mappings, in the order of the table.
pub open spec fn control_pairs(mappings: Seq<ControlMappingView>) -> Seq<(Seq<char>, Seq<char>)> {
    mappings.map_values(|mapping: ControlMappingView| (mapping.source, mapping.destination))
}

/// The entry that `code` resolves to: the last one of that code. None for a
/// code that no entry carries.
pub open spec fn location_of(entries: Seq<LocationEntryView>, code: Seq<char>) -> Option<
    LocationEntryView,
> {
    match last_index(location_codes(entries), code) {
        Some(i) => Some(entries[i]),
        None => None,
    }
}

/// The mapping that the pair resolves to: the last one of that pair. None
/// for a pair that no mapping carries.
pub open spec fn control_of(
    mappings: Seq<ControlMappingView>,
    source: Seq<char>,
    destination: Seq<char>,
) -> Option<ControlMappingView> {
    match last_index(control_pairs(mappings), (source, destination)) {
        Some(i) => Some(mappings[i]),
        None => None,
    }
}

/// The two routing tables.
pub struct LocationRouter {
    locations: Vec<LocationEntry>,
    controls: Vec<ControlMapping>,
}

impl LocationRouter {
    /// The location entries in the order in which they were added.
    pub closed spec fn locations(&self) -> Seq<LocationEntryView> {
        self.locations@.map_values(|e: LocationEntry| e@)
    }

    /// The control mappings in the order in which they were added.
    pub closed spec fn controls(&self) -> Seq<ControlMappingView> {
        self.controls@.map_values(|m: ControlMapping| m@)
    }

    /// A router with empty tables.
    pub fn new() -> (router: Self)
        ensures
            router.locations() == Seq::<LocationEntryView>::empty(),
            router.controls() == Seq::<ControlMappingView>::empty(),
    {
        LocationRouter { locations: Vec::new(), controls: Vec::new() }
    }

    /// Adds a location entry; it takes the place of any earlier entry of the
    /// same code.
    pub fn add_location(&mut self, entry: LocationEntry)
        ensures
            final(self).locations() == old(self).locations().push(entry@),
            final(self).controls() == old(self).controls(),
    {
        self.locations.push(entry);
    }

    /// Adds a control mapping; it takes the place of any earlier mapping of
    /// the same pair.
    pub fn add_control(&mut self, mapping: ControlMapping)
        ensures
            final(self).controls() == old(self).controls().push(mapping@),
            final(self).locations() == old(self).locations(),
    {
        self.controls.push(mapping);
    }

    /// The number of location entries, replaced ones included.
    pub fn location_count(&self) -> (n: usize)
        ensures
            n == self.locations().len(),
    {
        self.locations.len()
    }

    /// The location entry at `i`, in the order in which they were added.
    pub fn location_at(&self, i: usize) -> (entry: &LocationEntry)
        requires
            i < self.locations().len(),
        ensures
            entry@ == self.locations()[i as int],
    {
        &self.locations[i]
    }

    /// Resolves a location code to its entry. An unknown code is an ordinary
    /// answer, not an error.
    pub fn resolve_location(&self, code: &str) -> (found: Option<&LocationEntry>)
        ensures
            match found {
                Some(entry) => location_of(self.locations(), code@) == Some(entry@),
                None => location_of(self.locations(), code@) is None,
            },
            found is None <==> !location_codes(self.locations()).contains(code@),
    {
        let ghost codes = location_codes(self.locations());
        proof {
            lemma_last_index(codes, code@);
        }
        let key = String::from_str(code);
        let mut i: usize = self.locations.len();
        while i > 0
            invariant
                i <= self.locations.len(),
                key@ == code@,
                codes == location_codes(self.locations()),
                forall|j: int| i <= j < codes.len() ==> #[trigger] codes[j] != code@,
            decreases i,
        {
            i = i - 1;
            if self.locations[i].location_code == key {
                proof {
                    assert(is_last(codes, code@, i as int));
                    lemma_last_is_unique(codes, code@, i as int);
                }
                return Some(&self.locations[i]);
            }
        }
        None
    }

    /// Resolves a pair of locations to the mapping that routes from the
    /// first to the second. An unknown pair is an ordinary answer.
    pub fn resolve_control(&self, source: &str, destination: &str) -> (found: Option<
        &ControlMapping,
    >)
        ensures
            match found {
                Some(mapping) => control_of(self.controls(), source@, destination@) == Some(
                    mapping@,
                ),
                None => control_of(self.controls(), source@, destination@) is None,
            },
            found is None <==> !control_pairs(self.controls()).contains((source@, destination@)),
    {
        let ghost pairs = control_pairs(self.controls());
        let ghost pair = (source@, destination@);
        proof {
            lemma_last_index(pairs, pair);
        }
        let from = String::from_str(source);
        let to = String::from_str(destination);
        let mut i: usize = self.controls.len();
        while i > 0
            invariant
                i <= self.controls.len(),
                from@ == source@,
                to@ == destination@,
                pair == (source@, destination@),
                pairs == control_pairs(self.controls()),
                forall|j: int| i <= j < pairs.len() ==> #[trigger] pairs[j] != pair,
            decreases i,
        {
            i = i - 1;
            if self.controls[i].source == from && self.controls[i].destination == to {
                proof {
                    assert(is_last(pairs, pair, i as int));
                    lemma_last_is_unique(pairs, pair, i as int);
                }
                return Some(&self.controls[i]);
            }
        }
        None
    }
}

/// The device that serves the first line.
pub const LINE_ONE: &'static str = "127.0.0.1";

/// The device that serves the second line.
pub const LINE_TWO: &'static str = "192.168.70.102";

/// A location entry made of its four parts.
pub open spec fn location_view(
    location_code: Seq<char>,
    device_key: Seq<char>,
    register_offset: u16,
    alias: Seq<char>,
) -> LocationEntryView {
    LocationEntryView { location_code, device_key, register_offset, alias }
}

/// A control mapping made of its six parts.
pub open spec fn control_view(
    source: Seq<char>,
    destination: Seq<char>,
    device_key: Seq<char>,
    off_coil: u16,
    on_coil: u16,
    description: Seq<char>,
) -> ControlMappingView {
    ControlMappingView { source, destination, device_key, off_coil, on_coil, description }
}

/// The locations of the site from which goods can be taken.
pub open spec fn site_locations() -> Seq<LocationEntryView> {
    seq![
        location_view("0"@, LINE_ONE@, 0, "test"@),
        location_view("5504-1-1-1"@, LINE_ONE@, 5, "翻包区出口"@),
        location_view("5106-1-1-1"@, LINE_ONE@, 3, "一楼流水线出口"@),
        location_view("5101-1-1-1"@, LINE_ONE@, 2, "二楼流水线靠近机房入口"@),
        location_view("5102-1-1-1"@, LINE_ONE@, 1, "二楼流水线远离机房入口"@),
        location_view("5105-1-1-1"@, LINE_TWO@, 1, "成品流水线出口"@),
    ]
}

/// The routes of the site.
pub open spec fn site_controls() -> Seq<ControlMappingView> {
    seq![
        control_view("5104-1-1-1"@, "5104-1-1-1"@, LINE_TWO@, 10, 6, "成品流水线不通过"@),
        control_view("5104-1-1-1"@, "5105-1-1-1"@, LINE_TWO@, 10, 16, "成品流水线通过"@),
        control_view("5501-1-1-1"@, "5106-1-1-1"@, LINE_ONE@, 0, 6, "2楼半成品流水线副出口送至一楼入库接驳点"@),
        control_view("5501-1-1-1"@, "5504-1-1-1"@, LINE_ONE@, 0, 6, "2楼半成品流水线副出口送至一楼翻包区"@),
        control_view("5103-1-1-1"@, "5106-1-1-1"@, LINE_ONE@, 0, 16, "2楼半成品流水线主出口送至一楼入库接驳点"@),
        control_view("5103-1-1-1"@, "5504-1-1-1"@, LINE_ONE@, 0, 16, "2楼半成品流水线主出口送至一楼翻包区"@),
        control_view("5103-1-1-1"@, "5505-1-1-1"@, LINE_ONE@, 0, 6, "2楼半成品流水线主出口送至拆箱区"@),
        control_view("5103-1-1-1"@, "5101-1-1-1"@, LINE_ONE@, 0, 26, "2楼半成品流水线主出口送至靠近机房入库点"@),
        control_view("5103-1-1-1"@, "5102-1-1-1"@, LINE_ONE@, 0, 26, "2楼半成品流水线主出口送至离近机房入库点"@),
        control_view("5502-1-1-1"@, "5505-1-1-1"@, LINE_ONE@, 0, 6, "2楼半成品流水线交叉口送至拆箱区"@),
        control_view("5502-1-1-1"@, "5101-1-1-1"@, LINE_ONE@, 0, 26, "2楼半成品流水线交叉口送至靠近机房入库点"@),
        control_view("5502-1-1-1"@, "5102-1-1-1"@, LINE_ONE@, 0, 16, "2楼半成品流水线交叉口送远离近机房入库点"@),
        control_view("5101-1-1-1"@, "5101-1-1-1"@, LINE_ONE@, 0, 6, "2楼半成品流水线靠近机房入库点到终点"@),
        control_view("5102-1-1-1"@, "5102-1-1-1"@, LINE_ONE@, 0, 6, "2楼半成品流水线远离机房入库点到终点"@),
        control_view("5106-1-1-1"@, "5504-1-1-1"@, LINE_ONE@, 0, 6, "1楼流水线出口到翻包区"@),
        control_view("5106-1-1-1"@, "5106-1-1-1"@, LINE_ONE@, 0, 16, "1楼流水线出口到出口点"@),
        control_view("5107-1-1-1"@, "5504-1-1-1"@, LINE_ONE@, 0, 6, "1楼流水线入口到翻包区"@),
        control_view("5107-1-1-1"@, "5505-1-1-1"@, LINE_ONE@, 0, 16, "1楼流水线入口到拆箱区"@),
        control_view("5107-1-1-1"@, "5101-1-1-1"@, LINE_ONE@, 0, 16, "1楼流水线入口到2楼出库接驳点"@),
        control_view("5107-1-1-1"@, "5102-1-1-1"@, LINE_ONE@, 0, 16, "1楼流水线入口到2楼出库接驳点"@),
        control_view("5503-1-1-1"@, "5106-1-1-1"@, LINE_ONE@, 0, 6, "1楼翻包区到一楼入库接驳点"@),
        control_view("5503-1-1-1"@, "5505-1-1-1"@, LINE_ONE@, 0, 16, "1楼流水线入口到2楼拆箱区"@),
        control_view("5503-1-1-1"@, "5101-1-1-1"@, LINE_ONE@, 0, 16, "1楼流水线入口到2楼入库接驳点"@),
        control_view("5503-1-1-1"@, "5102-1-1-1"@, LINE_ONE@, 0, 16, "1楼流水线入口到2楼入库接驳点"@),
    ]
}

impl LocationEntry {
    /// The entry made of these four parts.
    pub fn new(location_code: &str, device_key: &str, register_offset: u16, alias: &str) -> (entry:
        Self)
        ensures
            entry@ == location_view(location_code@, device_key@, register_offset, alias@),
    {
        LocationEntry {
            location_code: String::from_str(location_code),
            device_key: String::from_str(device_key),
            register_offset,
            alias: String::from_str(alias),
        }
    }
}

impl ControlMapping {
    /// The mapping made of these six parts.
    pub fn new(
        source: &str,
        destination: &str,
        device_key: &str,
        off_coil: u16,
        on_coil: u16,
        description: &str,
    ) -> (mapping: Self)
        ensures
            mapping@ == control_view(
                source@,
                destination@,
                device_key@,
                off_coil,
                on_coil,
                description@,
            ),
    {
        ControlMapping {
            source: String::from_str(source),
            destination: String::from_str(destination),
            device_key: String::from_str(device_key),
            off_coil,
            on_coil,
            description: String::from_str(description),
        }
    }
}

impl LocationRouter {
    /// The router of the site, with its locations and its routes.
    pub fn site() -> (router: Self)
        ensures
            router.locations() == site_locations(),
            router.controls() == site_controls(),
    {
        let mut router = LocationRouter::new();
        router.add_location(LocationEntry::new("0", LINE_ONE, 0, "test"));
        router.add_location(LocationEntry::new("5504-1-1-1", LINE_ONE, 5, "翻包区出口"));
        router.add_location(LocationEntry::new("5106-1-1-1", LINE_ONE, 3, "一楼流水线出口"));
        router.add_location(LocationEntry::new("5101-1-1-1", LINE_ONE, 2, "二楼流水线靠近机房入口"));
        router.add_location(LocationEntry::new("5102-1-1-1", LINE_ONE, 1, "二楼流水线远离机房入口"));
        router.add_location(LocationEntry::new("5105-1-1-1", LINE_TWO, 1, "成品流水线出口"));
        router.add_control(
            ControlMapping::new("5104-1-1-1", "5104-1-1-1", LINE_TWO, 10, 6, "成品流水线不通过"),
        );
        router.add_control(
            ControlMapping::new("5104-1-1-1", "5105-1-1-1", LINE_TWO, 10, 16, "成品流水线通过"),
        );
        router.add_control(
            ControlMapping::new("5501-1-1-1", "5106-1-1-1", LINE_ONE, 0, 6, "2楼半成品流水线副出口送至一楼入库接驳点"),
        );
        router.add_control(
            ControlMapping::new("5501-1-1-1", "5504-1-1-1", LINE_ONE, 0, 6, "2楼半成品流水线副出口送至一楼翻包区"),
        );
        router.add_control(
            ControlMapping::new("5103-1-1-1", "5106-1-1-1", LINE_ONE, 0, 16, "2楼半成品流水线主出口送至一楼入库接驳点"),
        );
        router.add_control(
            ControlMapping::new("5103-1-1-1", "5504-1-1-1", LINE_ONE, 0, 16, "2楼半成品流水线主出口送至一楼翻包区"),
        );
        router.add_control(
            ControlMapping::new("5103-1-1-1", "5505-1-1-1", LINE_ONE, 0, 6, "2楼半成品流水线主出口送至拆箱区"),
        );
        router.add_control(
            ControlMapping::new("5103-1-1-1", "5101-1-1-1", LINE_ONE, 0, 26, "2楼半成品流水线主出口送至靠近机房入库点"),
        );
        router.add_control(
            ControlMapping::new("5103-1-1-1", "5102-1-1-1", LINE_ONE, 0, 26, "2楼半成品流水线主出口送至离近机房入库点"),
        );
        router.add_control(
            ControlMapping::new("5502-1-1-1", "5505-1-1-1", LINE_ONE, 0, 6, "2楼半成品流水线交叉口送至拆箱区"),
        );
        router.add_control(
            ControlMapping::new("5502-1-1-1", "5101-1-1-1", LINE_ONE, 0, 26, "2楼半成品流水线交叉口送至靠近机房入库点"),
        );
        router.add_control(
            ControlMapping::new("5502-1-1-1", "5102-1-1-1", LINE_ONE, 0, 16, "2楼半成品流水线交叉口送远离近机房入库点"),
        );
        router.add_control(
            ControlMapping::new("5101-1-1-1", "5101-1-1-1", LINE_ONE, 0, 6, "2楼半成品流水线靠近机房入库点到终点"),
        );
        router.add_control(
            ControlMapping::new("5102-1-1-1", "5102-1-1-1", LINE_ONE, 0, 6, "2楼半成品流水线远离机房入库点到终点"),
        );
        router.add_control(
            ControlMapping::new("5106-1-1-1", "5504-1-1-1", LINE_ONE, 0, 6, "1楼流水线出口到翻包区"),
        );
        router.add_control(
            ControlMapping::new("5106-1-1-1", "5106-1-1-1", LINE_ONE, 0, 16, "1楼流水线出口到出口点"),
        );
        router.add_control(
            ControlMapping::new("5107-1-1-1", "5504-1-1-1", LINE_ONE, 0, 6, "1楼流水线入口到翻包区"),
        );
        router.add_control(
            ControlMapping::new("5107-1-1-1", "5505-1-1-1", LINE_ONE, 0, 16, "1楼流水线入口到拆箱区"),
        );
        router.add_control(
            ControlMapping::new("5107-1-1-1", "5101-1-1-1", LINE_ONE, 0, 16, "1楼流水线入口到2楼出库接驳点"),
        );
        router.add_control(
            ControlMapping::new("5107-1-1-1", "5102-1-1-1", LINE_ONE, 0, 16, "1楼流水线入口到2楼出库接驳点"),
        );
        router.add_control(
            ControlMapping::new("5503-1-1-1", "5106-1-1-1", LINE_ONE, 0, 6, "1楼翻包区到一楼入库接驳点"),
        );
        router.add_control(
            ControlMapping::new("5503-1-1-1", "5505-1-1-1", LINE_ONE, 0, 16, "1楼流水线入口到2楼拆箱区"),
        );
        router.add_control(
            ControlMapping::new("5503-1-1-1", "5101-1-1-1", LINE_ONE, 0, 16, "1楼流水线入口到2楼入库接驳点"),
        );
        router.add_control(
            ControlMapping::new("5503-1-1-1", "5102-1-1-1", LINE_ONE, 0, 16, "1楼流水线入口到2楼入库接驳点"),
        );
        router
    }
}

} // verus!
