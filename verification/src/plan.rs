use vstd::prelude::*;
use vstd::string::*;

verus! {

/// One invocation of an external effector utility: the program name and its
/// argument list. Handlers return these; the process that runs the daemon
/// spawns them.
pub struct ExtCommand {
    pub program: String,
    pub args: Vec<String>,
}

#[verifier::ext_equal]
pub struct ExtCommandV {
    pub program: Seq<char>,
    pub args: Seq<Seq<char>>,
}

impl View for ExtCommand {
    type V = ExtCommandV;

    open spec fn view(&self) -> ExtCommandV {
        ExtCommandV { program: self.program@, args: self.args.deep_view() }
    }
}

impl DeepView for ExtCommand {
    type V = ExtCommandV;

    open spec fn deep_view(&self) -> ExtCommandV {
        self.view()
    }
}

impl ExtCommand {
    pub fn new(program: &str) -> (r: ExtCommand)
        ensures
            r@.program == program@,
            r@.args == Seq::<Seq<char>>::empty(),
    {
        let r = ExtCommand { program: program.to_owned(), args: Vec::new() };
        proof {
            assert(r@.args =~= Seq::<Seq<char>>::empty());
        }
        r
    }

    pub fn arg(&mut self, a: &str)
        ensures
            final(self)@.program == old(self)@.program,
            final(self)@.args == old(self)@.args.push(a@),
    {
        let ghost pre = self@.args;
        self.args.push(a.to_owned());
        proof {
            assert(self@.args =~= pre.push(a@));
        }
    }

    pub fn arg_string(&mut self, a: String)
        ensures
            final(self)@.program == old(self)@.program,
            final(self)@.args == old(self)@.args.push(a@),
    {
        let ghost pre = self@.args;
        self.args.push(a);
        proof {
            assert(self@.args =~= pre.push(a@));
        }
    }
}

} // verus!
