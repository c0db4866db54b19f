use vstd::prelude::*;

verus! {

/// A recoverable, user-visible failure: any value that exposes a title
/// and a body for presentation.  Implemented by callers for their own
/// error types; the router turns such a value into an error page that
/// displays exactly this title and body.  The spec functions pin both
/// down so that the router's contracts can speak about them; each
/// executable method must return exactly that text.
pub trait DisplayableError {
    /// The title, as a mathematical value.
    spec fn title_spec(&self) -> Seq<char>;

    /// The body, as a mathematical value.
    spec fn body_spec(&self) -> Seq<char>;

    /// Short heading of the failure.
    fn title(&self) -> (t: String)
        ensures
            t@ == self.title_spec(),
    ;

    /// Full description of the failure.
    fn body(&self) -> (b: String)
        ensures
            b@ == self.body_spec(),
    ;
}

} // verus!
