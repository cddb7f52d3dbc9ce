//! Which template a view renders.

use vstd::prelude::*;

verus! {

/// The templates of a view: a full-page template and, optionally, a
/// partial rendered for htmx requests.
#[derive(Debug, Clone)]
pub struct ViewTemplates {
    pub template: String,
    pub htmx: Option<String>,
}

impl ViewTemplates {
    /// A view of `template`, with `htmx` as its partial if given.
    pub fn new(template: &str, htmx: Option<&str>) -> (r: Self)
        ensures
            r.template@ == template@,
            match htmx {
                Some(h) => r.htmx matches Some(x) && x@ == h@,
                None => r.htmx is None,
            },
    {
        let htmx = match htmx {
            Some(h) => Some(String::from_str(h)),
            None => None,
        };
        ViewTemplates { template: String::from_str(template), htmx }
    }

    /// Whether the view has a separate htmx partial.
    pub fn has_dual_template(&self) -> (r: bool)
        ensures
            r == self.htmx is Some,
    {
        self.htmx.is_some()
    }

    /// The template rendered for a request: the partial for an htmx request
    /// when the view has one, else the full template.
    pub fn template_for(&self, is_htmx: bool) -> (r: &str)
        ensures
            r@ == match self.htmx {
                Some(h) => if is_htmx {
                    h@
                } else {
                    self.template@
                },
                None => self.template@,
            },
    {
        match &self.htmx {
            Some(h) => if is_htmx {
                h.as_str()
            } else {
                self.template.as_str()
            },
            None => self.template.as_str(),
        }
    }
}

} // verus!
