use vstd::prelude::*;

verus! {

/// Defines a .mcfunction file in the ./functions directory in the datapack
pub struct MCFunction {
    pub contents: String,
    pub path: String,
    pub ran_on_load: bool,
    pub ran_on_tick: bool,
}

impl MCFunction {
    /// A script that holds a copy of `contents` and lies at a copy of `path`.
    pub fn new(contents: &String, path: &String, ran_on_load: bool, ran_on_tick: bool) -> (r: Self)
        ensures
            r.contents@ == contents@,
            r.path@ == path@,
            r.ran_on_load == ran_on_load,
            r.ran_on_tick == ran_on_tick,
    {
        MCFunction { contents: contents.clone(), path: path.clone(), ran_on_load, ran_on_tick }
    }
}

impl Clone for MCFunction {
    fn clone(&self) -> (r: Self)
        ensures
            r.contents@ == self.contents@,
            r.path@ == self.path@,
            r.ran_on_load == self.ran_on_load,
            r.ran_on_tick == self.ran_on_tick,
    {
        MCFunction::new(&self.contents, &self.path, self.ran_on_load, self.ran_on_tick)
    }
}

} // verus!
