//! The interface of a template engine that pages are rendered with.

use vstd::prelude::*;

verus! {

/// Something that renders named templates with a context.
pub trait TemplateEngine {
    type Template;
    type Context;
    type Error;

    /// Adds templates to those that can be rendered.
    fn add_templates(&mut self, templates: Vec<Self::Template>);

    /// The text of the template named `template` rendered with `context`.
    fn render(&self, template: &str, context: &Self::Context) -> Result<String, Self::Error>;
}

} // verus!
