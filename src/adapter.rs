use vstd::prelude::*;

verus! {

/// How many adapter slots are enumerated when looking for a preferred one.
pub const ADAPTER_LIMIT: u32 = 8;

/// The driver to ask for when creating the device.
#[derive(Copy, Clone, PartialEq, Eq, Structural, Debug)]
pub enum DriverType {
    /// An explicit adapter is given; the driver follows from it.
    Unknown,
    /// No adapter is given; the default hardware adapter is used.
    Hardware,
}

pub open spec fn is_high_surrogate(c: u16) -> bool {
    0xD800 <= c <= 0xDBFF
}

pub open spec fn is_low_surrogate(c: u16) -> bool {
    0xDC00 <= c <= 0xDFFF
}

/// Well-formed UTF-16: every high surrogate is followed by a low one and
/// every low surrogate follows a high one.
pub open spec fn valid_utf16(s: Seq<u16>) -> bool {
    forall|i: int|
        #![trigger s[i]]
        0 <= i < s.len() ==> {
            &&& (is_high_surrogate(s[i]) ==> i + 1 < s.len() && is_low_surrogate(s[i + 1]))
            &&& (is_low_surrogate(s[i]) ==> i > 0 && is_high_surrogate(s[i - 1]))
        }
}

/// ASCII lower case of one UTF-16 code unit; other units are kept.
pub open spec fn ascii_lower(c: u16) -> u16 {
    if 65 <= c <= 90 {
        (c + 32) as u16
    } else {
        c
    }
}

pub open spec fn lower_units(s: Seq<u16>) -> Seq<u16> {
    s.map_values(|c: u16| ascii_lower(c))
}

pub open spec fn occurs_at(s: Seq<u16>, p: Seq<u16>, i: int) -> bool {
    0 <= i && i + p.len() <= s.len() && s.subrange(i, i + p.len()) == p
}

pub open spec fn occurs_in(s: Seq<u16>, p: Seq<u16>) -> bool {
    exists|i: int| occurs_at(s, p, i)
}

/// An adapter description matches a vendor when it is well-formed text that,
/// ignoring ASCII case, contains the vendor's name.
pub open spec fn description_matches(desc: Seq<u16>, vendor: Seq<u16>) -> bool {
    valid_utf16(desc) && occurs_in(lower_units(desc), lower_units(vendor))
}

/// The index of the first description that matches `vendor`, if any.
pub open spec fn first_match(descs: Seq<Seq<u16>>, vendor: Seq<u16>) -> Option<usize> {
    if exists|i: int| 0 <= i < descs.len() && description_matches(descs[i], vendor) {
        let i = choose|i: int|
            0 <= i < descs.len() && description_matches(descs[i], vendor) && forall|j: int|
                0 <= j < i ==> !description_matches(descs[j], vendor);
        Some(i as usize)
    } else {
        None
    }
}

/// Whether `s` is well-formed UTF-16.
pub fn is_valid_utf16(s: &Vec<u16>) -> (r: bool)
    ensures
        r == valid_utf16(s@),
{
    let n = s.len();
    let mut i: usize = 0;
    while i < n
        invariant
            n == s@.len(),
            i <= n,
            forall|k: int|
                #![trigger s@[k]]
                0 <= k < i ==> {
                    &&& (is_high_surrogate(s@[k]) ==> k + 1 < s@.len() && is_low_surrogate(
                        s@[k + 1],
                    ))
                    &&& (is_low_surrogate(s@[k]) ==> k > 0 && is_high_surrogate(s@[k - 1]))
                },
        decreases n - i,
    {
        let c = s[i];
        if 0xD800 <= c && c <= 0xDBFF {
            if i + 1 >= n || !(0xDC00 <= s[i + 1] && s[i + 1] <= 0xDFFF) {
                assert(!({
                    &&& (is_high_surrogate(s@[i as int]) ==> i + 1 < s@.len() && is_low_surrogate(
                        s@[i + 1],
                    ))
                    &&& (is_low_surrogate(s@[i as int]) ==> i > 0 && is_high_surrogate(
                        s@[i - 1],
                    ))
                }));
                return false;
            }
        }
        if 0xDC00 <= c && c <= 0xDFFF {
            if i == 0 || !(0xD800 <= s[i - 1] && s[i - 1] <= 0xDBFF) {
                assert(!({
                    &&& (is_high_surrogate(s@[i as int]) ==> i + 1 < s@.len() && is_low_surrogate(
                        s@[i + 1],
                    ))
                    &&& (is_low_surrogate(s@[i as int]) ==> i > 0 && is_high_surrogate(
                        s@[i - 1],
                    ))
                }));
                return false;
            }
        }
        i = i + 1;
    }
    true
}

/// `s` with every ASCII capital turned to lower case.
pub fn to_ascii_lower(s: &Vec<u16>) -> (r: Vec<u16>)
    ensures
        r@ == lower_units(s@),
{
    let mut r: Vec<u16> = Vec::new();
    let mut i: usize = 0;
    while i < s.len()
        invariant
            i <= s@.len(),
            r@ == lower_units(s@.subrange(0, i as int)),
        decreases s@.len() - i,
    {
        let c = s[i];
        let l: u16 = if 65 <= c && c <= 90 {
            c + 32
        } else {
            c
        };
        r.push(l);
        i = i + 1;
        assert(lower_units(s@.subrange(0, i as int)) =~= lower_units(
            s@.subrange(0, i - 1),
        ).push(l));
    }
    assert(s@.subrange(0, s@.len() as int) =~= s@);
    r
}

/// Whether `p` occurs in `s` as a run of consecutive units.
pub fn occurs(s: &Vec<u16>, p: &Vec<u16>) -> (r: bool)
    ensures
        r == occurs_in(s@, p@),
{
    let n = s.len();
    let m = p.len();
    if m > n {
        return false;
    }
    let last = n - m;
    let mut i: usize = 0;
    loop
        invariant
            n == s@.len(),
            m == p@.len(),
            last == n - m,
            i <= last,
            forall|k: int| 0 <= k < i ==> !occurs_at(s@, p@, k),
        decreases last - i,
    {
        let mut j: usize = 0;
        let mut same = true;
        while j < m
            invariant
                n == s@.len(),
                m == p@.len(),
                i + m <= n,
                j <= m,
                same ==> forall|t: int| 0 <= t < j ==> s@[i + t] == p@[t],
                !same ==> !occurs_at(s@, p@, i as int),
            decreases m - j,
        {
            if same && s[i + j] != p[j] {
                same = false;
                assert(s@.subrange(i as int, i + m)[j as int] != p@[j as int]);
            }
            j = j + 1;
        }
        if same {
            assert(s@.subrange(i as int, i + m) =~= p@);
            assert(occurs_at(s@, p@, i as int));
            return true;
        }
        if i == last {
            assert forall|k: int| !occurs_at(s@, p@, k) by {
                if 0 <= k && k + p@.len() <= s@.len() {
                    assert(k <= i);
                }
            }
            return false;
        }
        i = i + 1;
    }
}

/// Whether an adapter's description names `vendor`, ignoring ASCII case.
/// A description that is not well-formed UTF-16 names nothing.
pub fn description_matches_vendor(desc: &Vec<u16>, vendor: &Vec<u16>) -> (r: bool)
    ensures
        r == description_matches(desc@, vendor@),
{
    if !is_valid_utf16(desc) {
        return false;
    }
    let d = to_ascii_lower(desc);
    let v = to_ascii_lower(vendor);
    occurs(&d, &v)
}

/// The vendor preferred when several adapters are present: "nvidia".
pub fn preferred_vendor() -> (r: Vec<u16>)
    ensures
        r@ == seq![110u16, 118u16, 105u16, 100u16, 105u16, 97u16],
{
    vec![110u16, 118u16, 105u16, 100u16, 105u16, 97u16]
}

/// Picks the adapter to create the device on: the first, in enumeration
/// order, whose description names `vendor`; `None` when none does, in which
/// case the default hardware adapter is used.
pub fn select_adapter(descriptions: &Vec<Vec<u16>>, vendor: &Vec<u16>) -> (r: Option<usize>)
    ensures
        r == first_match(descriptions@.map_values(|d: Vec<u16>| d@), vendor@),
        match r {
            Some(i) => {
                &&& i < descriptions@.len()
                &&& description_matches(descriptions@[i as int]@, vendor@)
                &&& forall|j: int|
                    0 <= j < i ==> !description_matches(descriptions@[j]@, vendor@)
            },
            None => forall|j: int|
                0 <= j < descriptions@.len() ==> !description_matches(descriptions@[j]@, vendor@),
        },
{
    let ghost descs = descriptions@.map_values(|d: Vec<u16>| d@);
    let mut i: usize = 0;
    while i < descriptions.len()
        invariant
            i <= descriptions@.len(),
            descs == descriptions@.map_values(|d: Vec<u16>| d@),
            forall|j: int| 0 <= j < i ==> !description_matches(descriptions@[j]@, vendor@),
        decreases descriptions@.len() - i,
    {
        if description_matches_vendor(&descriptions[i], vendor) {
            assert(descs[i as int] == descriptions@[i as int]@);
            assert forall|j: int|
                0 <= j < descs.len() && description_matches(descs[j], vendor@) && (forall|k: int|
                    0 <= k < j ==> !description_matches(descs[k], vendor@)) implies j == i by {
                if j < i {
                    assert(descs[j] == descriptions@[j]@);
                }
                if j > i {
                    assert(!description_matches(descs[i as int], vendor@));
                }
            }
            return Some(i);
        }
        i = i + 1;
    }
    assert forall|j: int|
        0 <= j < descs.len() implies !description_matches(descs[j], vendor@) by {
        assert(descs[j] == descriptions@[j]@);
    }
    None
}

/// The driver type that goes with an adapter choice.
pub fn driver_type(selected: Option<usize>) -> (d: DriverType)
    ensures
        d == (if selected is Some {
            DriverType::Unknown
        } else {
            DriverType::Hardware
        }),
{
    match selected {
        Some(_) => DriverType::Unknown,
        None => DriverType::Hardware,
    }
}

} // verus!
