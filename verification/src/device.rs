//! The device catalog: a read-only registry of named device profiles.
//!
//! The catalog is built once at process start, either from the bundled
//! dataset (`init_device_list`) or entry by entry from a dataset the caller
//! parsed, and is never mutated afterwards. Looking up an unknown id is a
//! caller error, never a silent default.

use vstd::prelude::*;

use crate::error::{SnapError, SnapResult};

verus! {

broadcast use vstd::string::group_string_axioms;

/// The viewport of a catalog entry.
///
/// `deviceScaleFactor` is the device pixel ratio in thousandths, so a ratio
/// of 2.75 is stored as 2750.
#[allow(non_snake_case)]
#[derive(Debug, Clone, Copy, PartialEq, Eq, Structural)]
pub struct ViewPort {
    pub width: u32,
    pub height: u32,
    pub deviceScaleFactor: u32,
    pub isMobile: bool,
    pub hasTouch: bool,
    pub isLandscape: bool,
}

/// One named device profile of the catalog.
#[allow(non_snake_case)]
#[derive(Debug, Clone, PartialEq)]
pub struct DeviceJson {
    pub id: String,
    pub name: String,
    pub userAgent: String,
    pub viewport: ViewPort,
}

/// The id-to-entry registry. Ids are unique; entries are only added, never
/// changed or removed.
#[derive(Debug, Clone)]
pub struct DeviceCatalog {
    entries: Vec<DeviceJson>,
}

impl DeviceCatalog {
    /// The entries, in insertion order.
    pub closed spec fn entries_view(&self) -> Seq<DeviceJson> {
        self.entries@
    }

    /// Ids are pairwise distinct.
    pub open spec fn wf(&self) -> bool {
        forall|i: int, j: int|
            0 <= i < j < self.entries_view().len() ==> self.entries_view()[i].id@
                != self.entries_view()[j].id@
    }

    /// Whether some entry carries the given id.
    pub open spec fn spec_has(&self, id: Seq<char>) -> bool {
        exists|i: int| 0 <= i < self.entries_view().len() && self.entries_view()[i].id@ == id
    }

    /// The entry with the given id, if any.
    pub open spec fn spec_lookup(&self, id: Seq<char>) -> Option<DeviceJson> {
        if self.spec_has(id) {
            Some(
                self.entries_view()[choose|i: int|
                    0 <= i < self.entries_view().len() && self.entries_view()[i].id@ == id],
            )
        } else {
            None
        }
    }

    /// An empty catalog.
    pub fn new() -> (c: Self)
        ensures
            c.wf(),
            c.entries_view().len() == 0,
    {
        DeviceCatalog { entries: Vec::new() }
    }

    /// Adds one entry; a duplicate id is rejected, so ids stay unique.
    pub fn add(&mut self, entry: DeviceJson) -> (r: SnapResult<()>)
        requires
            old(self).wf(),
        ensures
            final(self).wf(),
            r is Ok <==> !old(self).spec_has(entry.id@),
            r is Ok ==> final(self).entries_view() == old(self).entries_view().push(entry),
            r is Err ==> *final(self) == *old(self) && r == Err::<(), SnapError>(SnapError::Other),
    {
        if self.lookup(&entry.id).is_some() {
            return Err(SnapError::Other);
        }
        proof {
            assert(!old(self).spec_has(entry.id@));
        }
        self.entries.push(entry);
        proof {
            let es = self.entries_view();
            let old_es = old(self).entries_view();
            assert forall|i: int, j: int| 0 <= i < j < es.len() implies es[i].id@ != es[j].id@ by {
                if j < es.len() - 1 {
                    assert(old_es[i].id@ != old_es[j].id@);
                } else {
                    assert(es[i] == old_es[i]);
                    assert(!(0 <= i < old_es.len() && old_es[i].id@ == entry.id@));
                }
            }
        }
        Ok(())
    }

    /// Looks up an entry by id.
    pub fn lookup(&self, id: &String) -> (r: Option<&DeviceJson>)
        requires
            self.wf(),
        ensures
            match r {
                Some(d) => self.spec_lookup(id@) == Some(*d),
                None => self.spec_lookup(id@) is None,
            },
    {
        let n = self.entries.len();
        let mut i: usize = 0;
        while i < n
            invariant
                n == self.entries_view().len(),
                0 <= i <= n,
                self.wf(),
                forall|k: int| 0 <= k < i ==> self.entries_view()[k].id@ != id@,
            decreases n - i,
        {
            if self.entries[i].id == *id {
                proof {
                    let w = choose|w: int|
                        0 <= w < self.entries_view().len() && self.entries_view()[w].id@ == id@;
                    assert(self.entries_view()[i as int].id@ == id@);
                    assert(w == i as int);
                }
                return Some(&self.entries[i]);
            }
            i = i + 1;
        }
        proof {
            assert(forall|k: int|
                0 <= k < self.entries_view().len() ==> self.entries_view()[k].id@ != id@);
        }
        None
    }

    /// How many entries the catalog holds.
    pub fn len(&self) -> (n: usize)
        ensures
            n == self.entries_view().len(),
    {
        self.entries.len()
    }
}

/// One entry of the bundled dataset.
fn bundled_entry(
    id: &str,
    name: &str,
    user_agent: &str,
    width: u32,
    height: u32,
    scale_milli: u32,
    is_landscape: bool,
) -> (d: DeviceJson)
    ensures
        d.id@ == id@,
        d.name@ == name@,
        d.userAgent@ == user_agent@,
        d.viewport == (ViewPort {
            width,
            height,
            deviceScaleFactor: scale_milli,
            isMobile: true,
            hasTouch: true,
            isLandscape: is_landscape,
        }),
{
    DeviceJson {
        id: id.to_owned(),
        name: name.to_owned(),
        userAgent: user_agent.to_owned(),
        viewport: ViewPort {
            width,
            height,
            deviceScaleFactor: scale_milli,
            isMobile: true,
            hasTouch: true,
            isLandscape: is_landscape,
        },
    }
}

/// Builds the catalog from the bundled dataset of well-known mobile devices.
///
/// Every bundled entry is a mobile, touch-capable device, as in the upstream
/// device descriptors the dataset is drawn from.
pub fn init_device_list() -> (c: DeviceCatalog)
    ensures
        c.wf(),
        c.entries_view().len() == 5,
        c.entries_view()[0].id@ == "iPhone 12"@,
        c.entries_view()[0].viewport == (ViewPort {
            width: 390,
            height: 844,
            deviceScaleFactor: 3000,
            isMobile: true,
            hasTouch: true,
            isLandscape: false,
        }),
        c.entries_view()[1].id@ == "iPhone 12 landscape"@,
        c.entries_view()[1].viewport == (ViewPort {
            width: 844,
            height: 390,
            deviceScaleFactor: 3000,
            isMobile: true,
            hasTouch: true,
            isLandscape: true,
        }),
        c.entries_view()[2].id@ == "iPhone SE"@,
        c.entries_view()[2].viewport == (ViewPort {
            width: 375,
            height: 667,
            deviceScaleFactor: 2000,
            isMobile: true,
            hasTouch: true,
            isLandscape: false,
        }),
        c.entries_view()[3].id@ == "Pixel 5"@,
        c.entries_view()[3].viewport == (ViewPort {
            width: 393,
            height: 851,
            deviceScaleFactor: 2750,
            isMobile: true,
            hasTouch: true,
            isLandscape: false,
        }),
        c.entries_view()[4].id@ == "iPad Pro 11"@,
        c.entries_view()[4].viewport == (ViewPort {
            width: 834,
            height: 1194,
            deviceScaleFactor: 2000,
            isMobile: true,
            hasTouch: true,
            isLandscape: false,
        }),
        c.spec_has("iPhone 12"@),
{
    proof {
        reveal_strlit("iPhone 12");
        reveal_strlit("iPhone 12 landscape");
        reveal_strlit("iPhone SE");
        reveal_strlit("Pixel 5");
        reveal_strlit("iPad Pro 11");
    }
    let mut entries: Vec<DeviceJson> = Vec::new();
    entries.push(
        bundled_entry(
            "iPhone 12",
            "iPhone 12",
            "Mozilla/5.0 (iPhone; CPU iPhone OS 14_4 like Mac OS X) AppleWebKit/605.1.15 (KHTML, like Gecko) Version/14.0.3 Mobile/15E148 Safari/604.1",
            390,
            844,
            3000,
            false,
        ),
    );
    entries.push(
        bundled_entry(
            "iPhone 12 landscape",
            "iPhone 12 landscape",
            "Mozilla/5.0 (iPhone; CPU iPhone OS 14_4 like Mac OS X) AppleWebKit/605.1.15 (KHTML, like Gecko) Version/14.0.3 Mobile/15E148 Safari/604.1",
            844,
            390,
            3000,
            true,
        ),
    );
    entries.push(
        bundled_entry(
            "iPhone SE",
            "iPhone SE",
            "Mozilla/5.0 (iPhone; CPU iPhone OS 11_0 like Mac OS X) AppleWebKit/604.1.38 (KHTML, like Gecko) Version/11.0 Mobile/15A372 Safari/604.1",
            375,
            667,
            2000,
            false,
        ),
    );
    entries.push(
        bundled_entry(
            "Pixel 5",
            "Pixel 5",
            "Mozilla/5.0 (Linux; Android 11; Pixel 5) AppleWebKit/537.36 (KHTML, like Gecko) Chrome/90.0.4412.3 Mobile Safari/537.36",
            393,
            851,
            2750,
            false,
        ),
    );
    entries.push(
        bundled_entry(
            "iPad Pro 11",
            "iPad Pro 11",
            "Mozilla/5.0 (iPad; CPU OS 13_3 like Mac OS X) AppleWebKit/605.1.15 (KHTML, like Gecko) Mobile/15E148",
            834,
            1194,
            2000,
            false,
        ),
    );
    let c = DeviceCatalog { entries };
    proof {
        let es = c.entries_view();
        assert(es[0].id@ == "iPhone 12"@);
        assert(es[1].id@ == "iPhone 12 landscape"@);
        assert(es[2].id@ == "iPhone SE"@);
        assert(es[3].id@ == "Pixel 5"@);
        assert(es[4].id@ == "iPad Pro 11"@);
        assert("iPhone 12"@.len() == 9);
        assert("iPhone 12 landscape"@.len() == 19);
        assert("iPhone SE"@.len() == 9);
        assert("Pixel 5"@.len() == 7);
        assert("iPad Pro 11"@.len() == 11);
        assert("iPhone 12"@[7] != "iPhone SE"@[7]);
        assert forall|i: int, j: int| 0 <= i < j < es.len() implies es[i].id@ != es[j].id@ by {
            assert(es.len() == 5);
        }
        assert(c.spec_has("iPhone 12"@)) by {
            assert(c.entries_view()[0].id@ == "iPhone 12"@);
        }
    }
    c
}

} // verus!
