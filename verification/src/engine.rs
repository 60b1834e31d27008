//! The Handlebars template registry, as the renderer uses it.
use vstd::prelude::*;
use crate::template::style_templates;

verus! {

/// The Handlebars registry type (`handlebars::Handlebars`, an alias of `handlebars::Registry`).
#[verifier::external_type_specification]
#[verifier::external_body]
pub struct ExRegistry<'reg>(handlebars::Handlebars<'reg>);

/// The registry type this crate uses: one that owns its templates.
pub type Registry = handlebars::Handlebars<'static>;

/// The templates a registry holds: each registered name with the source text it was compiled from.
pub uninterp spec fn registry_templates(registry: Registry) -> Map<Seq<char>, Seq<char>>;

/// Whether the registry renders in strict mode, where a missing variable is an error.
pub uninterp spec fn registry_strict(registry: Registry) -> bool;

/// Whether the registry keeps the helpers, decorators, escape function and options other than
/// strict mode that `Handlebars::new` gave it.
pub uninterp spec fn registry_stock(registry: Registry) -> bool;

/// What registering the template `source` under `name` gives: `None` when it compiles, else the
/// text of the `TemplateError`.
pub uninterp spec fn registration_outcome(name: Seq<char>, source: Seq<char>) -> Option<Seq<char>>;

/// What a stock registry in strict mode that holds the templates `templates` (name to source)
/// gives when it renders the template registered as `name` on the data that the JSON text
/// `context_json` holds: the rendered text, or the text of the error.
pub uninterp spec fn strict_render_outcome(
    templates: Map<Seq<char>, Seq<char>>,
    name: Seq<char>,
    context_json: Seq<char>,
) -> Result<Seq<char>, Seq<char>>;

/// `Handlebars::new`: a registry with no templates, the built-in helpers, HTML escaping, and
/// strict mode off.
#[verifier::external_body]
pub fn new_registry() -> (fresh: Registry)
    ensures
        registry_templates(fresh).dom().is_empty(),
        registry_strict(fresh) == false,
        registry_stock(fresh),
{
    handlebars::Handlebars::new()
}

/// `Handlebars::set_strict_mode`: sets the strict flag and nothing else.
#[verifier::external_body]
pub fn set_strict_mode(registry: &mut Registry, enabled: bool)
    ensures
        registry_templates(*final(registry)) == registry_templates(*old(registry)),
        registry_strict(*final(registry)) == enabled,
        registry_stock(*final(registry)) == registry_stock(*old(registry)),
{
    registry.set_strict_mode(enabled)
}

/// `Handlebars::register_template_string`: compiles `source`; on success it is stored under
/// `name` (replacing an earlier one), on failure the registry is unchanged and the error's
/// text comes back.
#[verifier::external_body]
pub fn register_template_string(
    registry: &mut Registry,
    name: &str,
    source: &str,
) -> (res: Result<(), String>)
    ensures
        registry_strict(*final(registry)) == registry_strict(*old(registry)),
        registry_stock(*final(registry)) == registry_stock(*old(registry)),
        match registration_outcome(name@, source@) {
            None => res is Ok && registry_templates(*final(registry)) == registry_templates(
                *old(registry),
            ).insert(name@, source@),
            Some(message) => res matches Err(e) && e@ == message && registry_templates(
                *final(registry),
            ) == registry_templates(*old(registry)),
        },
{
    registry.register_template_string(name, source).map_err(|error| error.to_string())
}

/// `Handlebars::render` of the template registered as `name`, on the data written as the JSON
/// text `context_json` (read into a `serde_json::Value`, the data type the call takes; a text
/// that is not JSON gives that error's text). Errors come back as their text. For a stock
/// registry in strict mode, the outcome is `strict_render_outcome` of the registry's templates,
/// the name and the JSON text.
///
/// The registry must hold exactly the renderer's own templates. Handlebars guards a partial only
/// against including itself by name, so templates that include each other as partials recurse
/// without bound and the call never returns; none of the renderer's templates holds a partial
/// (`{{>` or `{{#>`), so on them the call returns.
#[verifier::external_body]
pub fn render_json(
    registry: &Registry,
    name: &str,
    context_json: &str,
) -> (res: Result<String, String>)
    requires
        registry_templates(*registry) == style_templates(),
    ensures
        registry_strict(*registry) && registry_stock(*registry) ==> match strict_render_outcome(
            registry_templates(*registry),
            name@,
            context_json@,
        ) {
            Ok(html) => res matches Ok(s) && s@ == html,
            Err(message) => res matches Err(e) && e@ == message,
        },
{
    let data: serde_json::Value = serde_json::from_str(context_json).map_err(|e| e.to_string())?;
    registry.render(name, &data).map_err(|error| error.to_string())
}

} // verus!
