//! The transform's data model: a function definition reduced to what the
//! rewrite reads — visibility and signature as opaque source text, the
//! simple name, the asyncness flag, and the body as an opaque braced block
//! of source text.

use vstd::prelude::*;

verus! {

/// The mathematical content of a function definition.
#[verifier::ext_equal]
pub ghost struct FnDefView {
    pub vis: Seq<char>,
    pub sig: Seq<char>,
    pub name: Seq<char>,
    pub is_async: bool,
    pub body: Seq<char>,
}

/// A function definition as the transform sees it. `vis` and `sig` are
/// carried verbatim and never inspected; `name` is the unqualified
/// identifier and `is_async` the signature's asyncness flag; `body` is the
/// braced body block, treated as opaque text and never restructured.
pub struct FnDef {
    pub vis: String,
    pub sig: String,
    pub name: String,
    pub is_async: bool,
    pub body: String,
}

impl View for FnDef {
    type V = FnDefView;

    open spec fn view(&self) -> FnDefView {
        FnDefView {
            vis: self.vis@,
            sig: self.sig@,
            name: self.name@,
            is_async: self.is_async,
            body: self.body@,
        }
    }
}

} // verus!
