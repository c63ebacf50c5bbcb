use vstd::prelude::*;

verus! {

/// The text shown on the screen, one string per line.
pub struct Buffer {
    pub lines: Vec<String>,
}

impl Buffer {
    /// The lines, as character sequences.
    pub open spec fn text(&self) -> Seq<Seq<char>> {
        self.lines@.map_values(|l: String| l@)
    }

    /// The buffer holds no line.
    pub fn is_empty(&self) -> (r: bool)
        ensures
            r == (self.lines@.len() == 0),
    {
        self.lines.len() == 0
    }
}

impl Default for Buffer {
    /// A buffer with the single line `Hello, World!`.
    fn default() -> (r: Buffer)
        ensures
            r.text() == seq!["Hello, World!"@],
    {
        let r = Buffer { lines: vec!["Hello, World!".to_owned()] };
        assert(r.text() =~= seq!["Hello, World!"@]);
        r
    }
}

} // verus!
