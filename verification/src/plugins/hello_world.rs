//! The example plugin: it has a name and a version, answers a greeting route and adds
//! a `hello_world` function to the theme templates.

use vstd::prelude::*;

use crate::text::push_str;

verus! {

/// The example plugin.
pub struct HelloWorldPlugin;

impl HelloWorldPlugin {
    /// The plugin.
    pub fn new() -> (r: Self)
        ensures
            r == HelloWorldPlugin,
    {
        HelloWorldPlugin
    }

    /// The plugin's name.
    pub fn name(&self) -> (r: &'static str)
        ensures
            r@ == "hello-world-a3f9b2c1"@,
    {
        "hello-world-a3f9b2c1"
    }

    /// The plugin's version.
    pub fn version(&self) -> (r: &'static str)
        ensures
            r@ == "0.1.0"@,
    {
        "0.1.0"
    }
}

impl Default for HelloWorldPlugin {
    fn default() -> (r: Self)
        ensures
            r == HelloWorldPlugin,
    {
        HelloWorldPlugin
    }
}

/// The greeting of the template function: `Hello, <name>!`, with `World` when no name
/// is given.
pub fn hello_world(name: Option<String>) -> (r: String)
    ensures
        r@ == "Hello, "@ + (match name {
            Some(n) => n@,
            None => "World"@,
        }) + "!"@,
{
    let who = match name {
        Some(n) => n,
        None => "World".to_owned(),
    };
    let mut s = "Hello, ".to_owned();
    push_str(&mut s, who.as_str());
    push_str(&mut s, "!");
    s
}

/// What the Wasm build of the plugin answers to a hook call.
pub enum HookOutcome {
    /// The post's fields after the `post.before_save` filter; a field that is not a
    /// string in the post is `None` and left as it is.
    Modified { title: Option<String>, content_html: Option<String> },
    /// Any other hook is answered with an error message.
    UnknownHook { error: String },
}

/// The `post.before_save` filter: the title gets ` [Wasm Validated]` appended and the
/// HTML content a closing comment naming the plugin.
pub open spec fn filtered_title(title: Seq<char>) -> Seq<char> {
    title + " [Wasm Validated]"@
}

/// The HTML content after the filter.
pub open spec fn filtered_content(content: Seq<char>) -> Seq<char> {
    content + "<!-- processed by hello-world-wasm v0.1.0 -->"@
}

/// Answers a hook call of the Wasm plugin, given the post's string fields.
pub fn wasm_hook_outcome(hook_name: &str, title: Option<String>, content_html: Option<String>) -> (r: HookOutcome)
    ensures
        hook_name@ == "post.before_save"@ ==> (r matches HookOutcome::Modified { title: t, content_html: c } && (
        match (title, t) {
            (Some(a), Some(b)) => b@ == filtered_title(a@),
            (None, None) => true,
            _ => false,
        }) && (match (content_html, c) {
            (Some(a), Some(b)) => b@ == filtered_content(a@),
            (None, None) => true,
            _ => false,
        })),
        hook_name@ != "post.before_save"@ ==> (r matches HookOutcome::UnknownHook { error } && error@ == "unknown hook: "@
            + hook_name@),
{
    if crate::text::str_eq(hook_name, "post.before_save") {
        let t = match title {
            Some(mut a) => {
                push_str(&mut a, " [Wasm Validated]");
                Some(a)
            },
            None => None,
        };
        let c = match content_html {
            Some(mut a) => {
                push_str(&mut a, "<!-- processed by hello-world-wasm v0.1.0 -->");
                Some(a)
            },
            None => None,
        };
        HookOutcome::Modified { title: t, content_html: c }
    } else {
        let mut e = "unknown hook: ".to_owned();
        push_str(&mut e, hook_name);
        HookOutcome::UnknownHook { error: e }
    }
}

} // verus!
