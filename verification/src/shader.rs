//! Shader sources that are put together from parts.

use vstd::prelude::*;
use vstd::string::*;

verus! {

/// A shader in the shading language of the device: its name, its entry
/// point, and the parts of its source, which are joined in order.
#[derive(Clone, Copy, Debug, PartialEq, Eq)]
pub struct StaticWgslStack {
    pub name: &'static str,
    pub entry: &'static str,
    pub sources: &'static [&'static str],
}

/// The parts of a source joined in order, with nothing between them.
pub open spec fn joined(sources: Seq<&'static str>) -> Seq<char>
    decreases sources.len(),
{
    if sources.len() == 0 {
        Seq::empty()
    } else {
        joined(sources.drop_last()) + sources.last()@
    }
}

impl StaticWgslStack {
    /// The whole source of the shader.
    pub fn combined_source(&self) -> (source: String)
        ensures
            source@ == joined(self.sources@),
    {
        let mut source = String::new();
        let mut i: usize = 0;
        while i < self.sources.len()
            invariant
                i <= self.sources.len(),
                source@ == joined(self.sources@.take(i as int)),
            decreases self.sources.len() - i,
        {
            source.append(self.sources[i]);
            i += 1;
            assert(self.sources@.take(i as int).drop_last() =~= self.sources@.take(i as int - 1));
        }
        assert(self.sources@.take(self.sources.len() as int) =~= self.sources@);
        source
    }
}

} // verus!
