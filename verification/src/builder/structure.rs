use vstd::prelude::*;

verus! {

/// Defines a structure file in the ./structures directory in the datapack
pub struct Structure {
    pub contents: Vec<u8>,
    pub path: String,
}

impl Structure {
    /// A structure that holds a copy of `contents` and lies at a copy of
    /// `path`.
    pub fn new(contents: &Vec<u8>, path: &String) -> (r: Self)
        ensures
            r.contents@ == contents@,
            r.path@ == path@,
    {
        Structure { contents: contents.clone(), path: path.clone() }
    }
}

impl Clone for Structure {
    fn clone(&self) -> (r: Self)
        ensures
            r.contents@ == self.contents@,
            r.path@ == self.path@,
    {
        Structure::new(&self.contents, &self.path)
    }
}

} // verus!
