//! The execution context handed to every executor.

use vstd::prelude::*;

verus! {

/// What the editing surface supplies for one run: the candidate text at line
/// and at block granularity, and the scratch root of the run. Either text may
/// be empty. Executors read the context; they never write back to it.
#[derive(Debug, PartialEq, Eq)]
pub struct DataHolder {
    /// Raw text of the line under the cursor.
    pub current_line: String,
    /// Raw text of the larger region around it, up to the whole file.
    pub current_bloc: String,
    /// Path of the scratch root of this run.
    pub work_dir: String,
}

/// The mathematical content of a [`DataHolder`].
pub ghost struct DataView {
    pub current_line: Seq<char>,
    pub current_bloc: Seq<char>,
    pub work_dir: Seq<char>,
}

impl View for DataHolder {
    type V = DataView;

    open spec fn view(&self) -> DataView {
        DataView {
            current_line: self.current_line@,
            current_bloc: self.current_bloc@,
            work_dir: self.work_dir@,
        }
    }
}

impl Clone for DataHolder {
    /// A copy with the same three texts.
    fn clone(&self) -> (r: Self)
        ensures
            r@ == self@,
    {
        DataHolder {
            current_line: self.current_line.clone(),
            current_bloc: self.current_bloc.clone(),
            work_dir: self.work_dir.clone(),
        }
    }
}

} // verus!
