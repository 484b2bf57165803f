use vstd::prelude::*;

verus! {

/// The printer that a job opens.
#[derive(Debug, PartialEq, Eq)]
pub enum Target {
    /// Let the spooler pick the system's default printer.
    SystemDefault,
    /// A printer named by the system.
    Named(String),
}

impl View for Target {
    type V = Option<Seq<char>>;

    open spec fn view(&self) -> Option<Seq<char>> {
        match self {
            Target::SystemDefault => None,
            Target::Named(n) => Some(n@),
        }
    }
}

impl Target {
    /// A copy of this target.
    pub fn duplicate(&self) -> (r: Target)
        ensures
            r@ == self@,
    {
        match self {
            Target::SystemDefault => Target::SystemDefault,
            Target::Named(n) => Target::Named(n.clone()),
        }
    }
}

pub open spec fn name_view(o: Option<String>) -> Option<Seq<char>> {
    match o {
        Some(n) => Some(n@),
        None => None,
    }
}

/// A name counts only when it is present and not empty.
pub open spec fn usable(o: Option<Seq<char>>) -> Option<Seq<char>> {
    match o {
        Some(n) => if n.len() > 0 { Some(n) } else { None },
        None => None,
    }
}

/// The printer a job targets: the caller's name when it gave one, else the
/// system's default printer when the system reports one, else the spooler's
/// own choice.
pub open spec fn resolve_spec(explicit: Option<Seq<char>>, default: Option<Seq<char>>) -> Option<
    Seq<char>,
> {
    if usable(explicit) is Some {
        usable(explicit)
    } else {
        usable(default)
    }
}

/// Whether the system must be asked for its default printer.
pub fn needs_default_query(explicit: &Option<String>) -> (r: bool)
    ensures
        r == (usable(name_view(*explicit)) is None),
{
    match explicit {
        Some(n) => n.as_str().unicode_len() == 0,
        None => true,
    }
}

/// Turns a reported name into a target; an absent or empty name leaves the
/// choice to the spooler.
pub fn target_of(name: Option<String>) -> (r: Target)
    ensures
        r@ == usable(name_view(name)),
{
    match name {
        Some(n) => {
            if n.as_str().unicode_len() == 0 {
                Target::SystemDefault
            } else {
                Target::Named(n)
            }
        },
        None => Target::SystemDefault,
    }
}

/// Resolves the printer of a job from the caller's name and the system's
/// default printer (absent when the query failed or found none).
pub fn resolve(explicit: Option<String>, default: Option<String>) -> (r: Target)
    ensures
        r@ == resolve_spec(name_view(explicit), name_view(default)),
{
    if needs_default_query(&explicit) {
        target_of(default)
    } else {
        target_of(explicit)
    }
}

/// The length of `b` once the zero bytes at its end are cut off.
pub open spec fn trimmed_len(b: Seq<u8>) -> nat
    decreases b.len(),
{
    if b.len() > 0 && b.last() == 0 {
        trimmed_len(b.drop_last())
    } else {
        b.len()
    }
}

proof fn lemma_trimmed_len(b: Seq<u8>)
    ensures
        trimmed_len(b) <= b.len(),
        forall|i: int| trimmed_len(b) <= i < b.len() ==> b[i] == 0,
        trimmed_len(b) > 0 ==> b[trimmed_len(b) - 1] != 0,
    decreases b.len(),
{
    if b.len() > 0 && b.last() == 0 {
        lemma_trimmed_len(b.drop_last());
        assert forall|i: int| trimmed_len(b) <= i < b.len() implies b[i] == 0 by {
            if i < b.len() - 1 {
                assert(b[i] == b.drop_last()[i]);
            }
        }
    }
}

/// The name in a zero-terminated buffer that the system filled: the bytes
/// before the trailing zeros, or none when a zero stands inside the name.
pub open spec fn name_in_buffer(b: Seq<u8>) -> Option<Seq<u8>> {
    let k = trimmed_len(b);
    if exists|i: int| 0 <= i < k && b[i] == 0 {
        None
    } else {
        Some(b.subrange(0, k as int))
    }
}

/// Reads a printer name out of a buffer that the system filled.
pub fn name_from_buffer(buf: &Vec<u8>) -> (r: Option<Vec<u8>>)
    ensures
        match r {
            Some(v) => name_in_buffer(buf@) == Some(v@),
            None => name_in_buffer(buf@) is None,
        },
{
    proof {
        lemma_trimmed_len(buf@);
    }
    let mut k: usize = buf.len();
    assert(buf@.subrange(0, k as int) =~= buf@);
    while k > 0 && buf[k - 1] == 0
        invariant
            k <= buf@.len(),
            trimmed_len(buf@.subrange(0, k as int)) == trimmed_len(buf@),
        decreases k,
    {
        assert(buf@.subrange(0, k as int).drop_last() =~= buf@.subrange(0, k - 1));
        k = k - 1;
    }
    assert(trimmed_len(buf@.subrange(0, k as int)) == k);
    let mut name: Vec<u8> = Vec::new();
    let mut i: usize = 0;
    while i < k
        invariant
            i <= k,
            k == trimmed_len(buf@),
            k <= buf@.len(),
            name@ == buf@.subrange(0, i as int),
            forall|j: int| 0 <= j < i ==> buf@[j] != 0,
        decreases k - i,
    {
        if buf[i] == 0 {
            return None;
        }
        name.push(buf[i]);
        i = i + 1;
        assert(name@ =~= buf@.subrange(0, i as int));
    }
    Some(name)
}

} // verus!
