use vstd::prelude::*;

verus! {

/// The data type under which a job's bytes are handed to the spooler.
#[derive(Clone, Copy, Debug, PartialEq, Eq, Structural)]
pub enum Encoding {
    /// Textual mode: the spooler may translate the bytes for the driver.
    Text,
    /// Raw mode: the bytes go to the printer untouched.
    Raw,
}

pub open spec fn tag_spec(e: Encoding) -> Seq<char> {
    match e {
        Encoding::Text => seq!['T', 'E', 'X', 'T'],
        Encoding::Raw => seq!['R', 'A', 'W'],
    }
}

impl Encoding {
    /// The spooler's name for this data type.
    pub fn tag(&self) -> (r: &'static str)
        ensures
            r@ == tag_spec(*self),
    {
        proof {
            reveal_strlit("TEXT");
            reveal_strlit("RAW");
        }
        match self {
            Encoding::Text => "TEXT",
            Encoding::Raw => "RAW",
        }
    }

    /// Whether a document of this data type is sent to the null output
    /// device instead of the port, which some receipt drivers need in
    /// textual mode.
    pub fn discards_output(&self) -> (r: bool)
        ensures
            r == (*self == Encoding::Text),
    {
        match self {
            Encoding::Text => true,
            Encoding::Raw => false,
        }
    }
}

/// The candidates in priority order: textual mode first, raw mode second.
pub fn default_candidates() -> (r: Vec<Encoding>)
    ensures
        r@ == seq![Encoding::Text, Encoding::Raw],
{
    let r = vec![Encoding::Text, Encoding::Raw];
    assert(r@ =~= seq![Encoding::Text, Encoding::Raw]);
    r
}

} // verus!
