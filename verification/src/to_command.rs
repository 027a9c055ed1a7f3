//! The rendering interface: a configuration value turns into the ordered
//! sequence of argv tokens the monitor binary expects, or into one
//! space-joined invocation string.

use vstd::prelude::*;
use crate::text::{views, join_sep};

verus! {

pub trait ToCommand {
    /// The exact token sequence this value renders to.
    spec fn command_view(&self) -> Seq<Seq<char>>;

    /// Renders the value into its argv token sequence.
    fn to_command(&self) -> (r: Vec<String>)
        ensures
            views(r@) == self.command_view(),
    ;

    /// The token sequence joined with single spaces into one string.
    fn to_single_command(&self) -> (r: String)
        ensures
            r@ == join_sep(self.command_view(), " "@),
    ;
}

} // verus!
