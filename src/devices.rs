use vstd::prelude::*;

verus! {

/// What the platform reported for one enumerated render device: its identifier
/// and its display name, each `None` where the query failed.
pub struct DeviceProbe {
    pub id: Option<String>,
    pub name: Option<String>,
}

/// A text that a failed query leaves empty.
pub open spec fn text_or_empty(t: Option<String>) -> Seq<char> {
    match t {
        Some(s) => s@,
        None => Seq::<char>::empty(),
    }
}

/// The listing of the probed devices, in enumeration order: one pair of
/// identifier and display name for each device whose identifier is known and
/// not empty. `None` stands for a device that could not be opened.
pub open spec fn listed_devices(probes: Seq<Option<DeviceProbe>>) -> Seq<(Seq<char>, Seq<char>)>
    decreases probes.len(),
{
    if probes.len() == 0 {
        Seq::empty()
    } else {
        let before = listed_devices(probes.drop_last());
        match probes.last() {
            Some(p) => if text_or_empty(p.id).len() > 0 {
                before.push((text_or_empty(p.id), text_or_empty(p.name)))
            } else {
                before
            },
            None => before,
        }
    }
}

/// The views of a list of identifier and name pairs.
pub open spec fn pair_views(v: Seq<(String, String)>) -> Seq<(Seq<char>, Seq<char>)> {
    v.map_values(|p: (String, String)| (p.0@, p.1@))
}

fn text_of(t: &Option<String>) -> (r: String)
    ensures
        r@ == text_or_empty(*t),
{
    match t {
        Some(s) => s.clone(),
        None => String::new(),
    }
}

/// Builds the device listing from what enumeration reported, skipping devices
/// that could not be opened or whose identifier is unknown or empty. Keeps the
/// enumeration order; no sorting, no deduplication.
pub fn collect_output_devices(probes: &Vec<Option<DeviceProbe>>) -> (list: Vec<(String, String)>)
    ensures
        pair_views(list@) == listed_devices(probes@),
{
    let mut list: Vec<(String, String)> = Vec::new();
    let mut i: usize = 0;
    while i < probes.len()
        invariant
            0 <= i <= probes@.len(),
            pair_views(list@) == listed_devices(probes@.take(i as int)),
        decreases probes@.len() - i,
    {
        proof {
            assert(probes@.take(i + 1).drop_last() =~= probes@.take(i as int));
        }
        match &probes[i] {
            Some(p) => {
                let id = text_of(&p.id);
                if id.as_str().is_empty() {
                } else {
                    let name = text_of(&p.name);
                    list.push((id, name));
                    assert(pair_views(list@) =~= listed_devices(probes@.take(i + 1)));
                }
            },
            None => {},
        }
        i = i + 1;
    }
    assert(probes@.take(i as int) =~= probes@);
    list
}

/// Whether the device at `i` reported exactly the identifier `wanted`.
pub open spec fn id_matches(ids: Seq<Option<String>>, i: int, wanted: Seq<char>) -> bool {
    ids[i] is Some && ids[i]->0@ == wanted
}

/// The first device, in enumeration order, whose identifier equals `wanted`
/// exactly (case-sensitive). Devices whose identifier is unknown never match.
pub fn find_device_index(ids: &Vec<Option<String>>, wanted: &String) -> (r: Option<usize>)
    ensures
        r matches Some(i) ==> is_first_match(ids@, i as int, wanted@),
        r is None ==> no_match(ids@, wanted@),
{
    let mut i: usize = 0;
    while i < ids.len()
        invariant
            0 <= i <= ids@.len(),
            forall|j: int| 0 <= j < i ==> !id_matches(ids@, j, wanted@),
        decreases ids@.len() - i,
    {
        match &ids[i] {
            Some(id) => {
                if *id == *wanted {
                    return Some(i);
                }
            },
            None => {},
        }
        i = i + 1;
    }
    None
}

/// Which device a capture opens.
#[derive(PartialEq, Eq, Structural)]
pub enum DeviceChoice {
    /// The enumerated device at this index.
    Listed(usize),
    /// The platform's current default render device.
    SystemDefault,
}

/// Whether `i` is the first enumerated device whose identifier is `wanted`.
pub open spec fn is_first_match(ids: Seq<Option<String>>, i: int, wanted: Seq<char>) -> bool {
    &&& 0 <= i < ids.len()
    &&& id_matches(ids, i, wanted)
    &&& forall|j: int| 0 <= j < i ==> !id_matches(ids, j, wanted)
}

/// Whether no enumerated device has the identifier `wanted`.
pub open spec fn no_match(ids: Seq<Option<String>>, wanted: Seq<char>) -> bool {
    forall|j: int| 0 <= j < ids.len() ==> !id_matches(ids, j, wanted)
}

/// Resolves a (normalized) request against the identifiers of the enumerated
/// devices.
pub fn resolve_device(request: &Option<String>, ids: &Vec<Option<String>>) -> (c: DeviceChoice)
    ensures
        request is None ==> c == DeviceChoice::SystemDefault,
        request matches Some(w) ==> match c {
            DeviceChoice::Listed(i) => is_first_match(ids@, i as int, w@),
            DeviceChoice::SystemDefault => no_match(ids@, w@),
        },
{
    match request {
        Some(w) => match find_device_index(ids, w) {
            Some(i) => {
                DeviceChoice::Listed(i)
            },
            None => DeviceChoice::SystemDefault,
        },
        None => DeviceChoice::SystemDefault,
    }
}

} // verus!
