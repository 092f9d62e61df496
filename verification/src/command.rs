use vstd::prelude::*;

verus! {

/// A command line handed over at startup: the program to spawn followed by
/// its arguments.
#[derive(Clone, Debug)]
pub enum Spawn {
    Start(Vec<String>),
}

impl Spawn {
    /// The words of the command line.
    pub open spec fn args_spec(self) -> Seq<String> {
        match self {
            Spawn::Start(a) => a@,
        }
    }

    /// Split the command line into the program to spawn and its arguments.
    pub fn command_parts(self) -> (r: (String, Vec<String>))
        requires
            self.args_spec().len() >= 1,
        ensures
            r.0 == self.args_spec()[0],
            r.1@ == self.args_spec().skip(1),
    {
        let ghost orig = self.args_spec();
        match self {
            Spawn::Start(mut args) => {
                let first = args.remove(0);
                assert(args@ =~= orig.skip(1));
                (first, args)
            },
        }
    }
}

} // verus!
