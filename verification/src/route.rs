//! Route annotations: a verb and a path, declared next to a handler.
//!
//! An annotation is expanded before the program runs. Its argument is the
//! text of one string literal, the path; the annotated item is the text of a
//! function, the handler. The expansion hands the function back as it was and
//! adds a constant that holds the path, under a name made from the handler's
//! name, so that the code that mounts the routes can find it. The Rust syntax
//! is parsed by `syn`; what is made of the parsed pieces is proved here.

use vstd::prelude::*;
use vstd::string::StringExecFns;

verus! {

/// The verbs that a route can be declared with.
#[derive(Debug, Clone, Copy, PartialEq, Eq, Structural)]
pub enum HttpMethod {
    Get,
    Post,
    Put,
    Delete,
    Patch,
}

impl HttpMethod {
    /// The verb as it is written in a request.
    pub open spec fn name(&self) -> Seq<char> {
        match self {
            HttpMethod::Get => "GET"@,
            HttpMethod::Post => "POST"@,
            HttpMethod::Put => "PUT"@,
            HttpMethod::Delete => "DELETE"@,
            HttpMethod::Patch => "PATCH"@,
        }
    }

    /// The name of the function of `axum::routing` that mounts a handler for
    /// the verb.
    pub open spec fn routing_name(&self) -> Seq<char> {
        match self {
            HttpMethod::Get => "get"@,
            HttpMethod::Post => "post"@,
            HttpMethod::Put => "put"@,
            HttpMethod::Delete => "delete"@,
            HttpMethod::Patch => "patch"@,
        }
    }

    /// The name of the function of `axum::routing` that mounts a handler for
    /// the verb.
    pub fn axum_method(&self) -> (name: &'static str)
        ensures
            name@ == self.routing_name(),
    {
        match self {
            HttpMethod::Get => "get",
            HttpMethod::Post => "post",
            HttpMethod::Put => "put",
            HttpMethod::Delete => "delete",
            HttpMethod::Patch => "patch",
        }
    }

    /// The verb as it is written in a request.
    pub fn as_str(&self) -> (name: &'static str)
        ensures
            name@ == self.name(),
    {
        match self {
            HttpMethod::Get => "GET",
            HttpMethod::Post => "POST",
            HttpMethod::Put => "PUT",
            HttpMethod::Delete => "DELETE",
            HttpMethod::Patch => "PATCH",
        }
    }
}

/// The argument of an annotation.
#[derive(Debug, Clone, PartialEq, Eq)]
pub struct RouteArgs {
    /// The path that the literal denotes.
    pub path: String,
    /// The literal as it was written, quotes and escapes included.
    pub literal: String,
}

/// The visibility that a function was written with.
#[derive(Debug, Clone, PartialEq, Eq)]
pub enum Visibility {
    /// None was written.
    Inherited,
    /// `pub`
    Public,
    /// `pub(crate)`, `pub(self)`, `pub(super)` or `pub(in some::module)`.
    Restricted {
        /// Whether the path follows the word `in`.
        within: bool,
        /// Whether the path starts with `::`.
        absolute: bool,
        /// The segments of the path.
        path: Vec<String>,
    },
}

/// A visibility as plain values.
pub enum VisibilityView {
    Inherited,
    Public,
    Restricted { within: bool, absolute: bool, path: Seq<Seq<char>> },
}

impl View for Visibility {
    type V = VisibilityView;

    open spec fn view(&self) -> VisibilityView {
        match self {
            Visibility::Inherited => VisibilityView::Inherited,
            Visibility::Public => VisibilityView::Public,
            Visibility::Restricted { within, absolute, path } => VisibilityView::Restricted {
                within: *within,
                absolute: *absolute,
                path: path@.map_values(|segment: String| segment@),
            },
        }
    }
}

/// What an annotation needs to know of the function it stands on.
#[derive(Debug, Clone, PartialEq, Eq)]
pub struct Handler {
    /// The function's name.
    pub name: String,
    /// The function's visibility.
    pub visibility: Visibility,
}

/// A declared route: the verb, the path and the name of the handler.
#[derive(Debug, Clone, PartialEq, Eq)]
pub struct RouteDescriptor {
    pub method: HttpMethod,
    pub path: String,
    pub handler: String,
}

/// What an annotation expands to.
#[derive(Debug, Clone, PartialEq, Eq)]
pub struct Expansion {
    /// The annotated function, as it was written.
    pub function: String,
    /// The declaration of the constant that holds the path.
    pub constant: String,
    /// The route that the annotation declares.
    pub descriptor: RouteDescriptor,
}

/// Why an annotation was refused. Each variant carries a message for the
/// author of the annotation.
#[derive(Debug, Clone, PartialEq, Eq)]
pub enum AnnotationError {
    /// The argument is not one string literal.
    InvalidPath(String),
    /// The annotated item is not a function, or no constant can be named
    /// after it.
    InvalidHandler(String),
}

/// What `syn` makes of the argument of an annotation: the path that the
/// literal denotes and the literal as written, or nothing where the argument
/// is not one string literal.
pub uninterp spec fn parsed_args(args: Seq<char>) -> Option<(Seq<char>, Seq<char>)>;

/// What `syn` makes of the annotated item: the function's name and its
/// visibility, or nothing where the item is not a function.
pub uninterp spec fn parsed_handler(input: Seq<char>) -> Option<(Seq<char>, VisibilityView)>;

/// The plain content of the outcome of parsing an argument.
pub open spec fn args_content(outcome: Result<RouteArgs, String>) -> Option<
    (Seq<char>, Seq<char>),
> {
    match outcome {
        Ok(args) => Some((args.path@, args.literal@)),
        Err(_) => None,
    }
}

/// The plain content of the outcome of parsing an annotated item.
pub open spec fn handler_content(outcome: Result<Handler, String>) -> Option<
    (Seq<char>, VisibilityView),
> {
    match outcome {
        Ok(handler) => Some((handler.name@, handler.visibility@)),
        Err(_) => None,
    }
}

/// `syn::parse_str::<syn::LitStr>`, then `LitStr::value` and
/// `LitStr::token`; on failure, the message of the error. The contract names
/// what is read on success and claims that it, and whether the parse
/// succeeds, depend on the text alone. Nothing is claimed of the message.
#[verifier::external_body]
fn parse_args(args: &str) -> (outcome: Result<RouteArgs, String>)
    ensures
        args_content(outcome) == parsed_args(args@),
{
    match syn::parse_str::<syn::LitStr>(args) {
        Ok(literal) => Ok(RouteArgs { path: literal.value(), literal: literal.token().to_string() }),
        Err(error) => Err(error.to_string()),
    }
}

/// `syn::parse_str::<syn::ItemFn>`, then the name of the function and the
/// parts of its visibility; on failure, the message of the error. The
/// contract names what is read on success and claims that it, and whether
/// the parse succeeds, depend on the text alone. Nothing is claimed of the
/// message.
#[verifier::external_body]
fn parse_handler(input: &str) -> (outcome: Result<Handler, String>)
    ensures
        handler_content(outcome) == parsed_handler(input@),
{
    let function = match syn::parse_str::<syn::ItemFn>(input) {
        Ok(function) => function,
        Err(error) => return Err(error.to_string()),
    };
    let visibility = match function.vis {
        syn::Visibility::Inherited => Visibility::Inherited,
        syn::Visibility::Public(_) => Visibility::Public,
        syn::Visibility::Restricted(scope) => Visibility::Restricted {
            within: scope.in_token.is_some(),
            absolute: scope.path.leading_colon.is_some(),
            path: scope.path.segments.iter().map(|segment| segment.ident.to_string()).collect(),
        },
    };
    Ok(Handler { name: function.sig.ident.to_string(), visibility })
}

/// The name of the constant that holds the path of the route of `handler`.
pub open spec fn constant_name(handler: Seq<char>) -> Seq<char> {
    "__"@ + handler + "_route"@
}

/// The segments of a path with `::` between them.
pub open spec fn joined(path: Seq<Seq<char>>) -> Seq<char>
    decreases path.len(),
{
    if path.len() == 0 {
        Seq::empty()
    } else if path.len() == 1 {
        path[0]
    } else {
        joined(path.drop_last()) + "::"@ + path.last()
    }
}

/// A visibility as it stands before the item it belongs to, with a space
/// behind it where it is not empty.
pub open spec fn visibility_text(visibility: VisibilityView) -> Seq<char> {
    match visibility {
        VisibilityView::Inherited => Seq::empty(),
        VisibilityView::Public => "pub "@,
        VisibilityView::Restricted { within, absolute, path } => {
            let scope = if within {
                "in "@
            } else {
                Seq::empty()
            };
            let root = if absolute {
                "::"@
            } else {
                Seq::empty()
            };
            "pub("@ + scope + root + joined(path) + ") "@
        },
    }
}

/// The declaration of the constant that holds a path: it has the handler's
/// visibility, and its value is the literal as it was written.
pub open spec fn constant_text(
    visibility: VisibilityView,
    handler: Seq<char>,
    literal: Seq<char>,
) -> Seq<char> {
    "#[allow(non_upper_case_globals)] "@ + visibility_text(visibility) + "const "@
        + constant_name(handler) + ": &str = "@ + literal + ";"@
}

/// Appends the segments of `path` to `text`, with `::` between them.
fn append_joined(text: &mut String, path: &Vec<String>)
    ensures
        final(text)@ == old(text)@ + joined(path@.map_values(|segment: String| segment@)),
{
    let ghost segments = path@.map_values(|segment: String| segment@);
    let mut i: usize = 0;
    while i < path.len()
        invariant
            i <= path@.len(),
            segments == path@.map_values(|segment: String| segment@),
            text@ == old(text)@ + joined(segments.subrange(0, i as int)),
        decreases path@.len() - i,
    {
        if i > 0 {
            text.append("::");
        }
        text.append(path[i].as_str());
        proof {
            let before = segments.subrange(0, i as int);
            let after = segments.subrange(0, i + 1);
            assert(after.drop_last() =~= before);
            assert(after.last() == path@[i as int]@);
            assert(text@ =~= old(text)@ + joined(after));
        }
        i += 1;
    }
    proof {
        assert(segments.subrange(0, i as int) =~= segments);
    }
}

impl Visibility {
    /// The visibility as it stands before the item it belongs to.
    pub fn text(&self) -> (text: String)
        ensures
            text@ == visibility_text(self@),
    {
        match self {
            Visibility::Inherited => String::new(),
            Visibility::Public => String::from_str("pub "),
            Visibility::Restricted { within, absolute, path } => {
                let mut text = String::from_str("pub(");
                if *within {
                    text.append("in ");
                }
                if *absolute {
                    text.append("::");
                }
                append_joined(&mut text, path);
                text.append(") ");
                proof {
                    assert(text@ =~= visibility_text(self@));
                }
                text
            },
        }
    }
}

impl RouteDescriptor {
    /// The name of the constant under which the route is found.
    pub fn constant_name(&self) -> (name: String)
        ensures
            name@ == constant_name(self.handler@),
    {
        let mut name = String::from_str("__");
        name.append(self.handler.as_str());
        name.append("_route");
        name
    }
}

impl RouteArgs {
    /// Reads the argument of an annotation: the text of one string literal.
    pub fn parse(args: &str) -> (outcome: Result<RouteArgs, AnnotationError>)
        ensures
            match parsed_args(args@) {
                Some((path, literal)) => outcome matches Ok(read) && read.path@ == path
                    && read.literal@ == literal,
                None => outcome matches Err(AnnotationError::InvalidPath(_)),
            },
    {
        match parse_args(args) {
            Ok(read) => Ok(read),
            Err(message) => Err(AnnotationError::InvalidPath(message)),
        }
    }
}

impl Handler {
    /// Reads the annotated item: the text of a function.
    pub fn parse(input: &str) -> (outcome: Result<Handler, AnnotationError>)
        ensures
            match parsed_handler(input@) {
                Some((name, visibility)) => outcome matches Ok(read) && read.name@ == name
                    && read.visibility@ == visibility,
                None => outcome matches Err(AnnotationError::InvalidHandler(_)),
            },
    {
        match parse_handler(input) {
            Ok(read) => Ok(read),
            Err(message) => Err(AnnotationError::InvalidHandler(message)),
        }
    }
}

/// Whether a name is a raw identifier: one that starts with `r#`. No
/// constant can be named after such a handler.
pub open spec fn is_raw(name: Seq<char>) -> bool {
    name.len() >= 2 && name[0] == 'r' && name[1] == '#'
}

/// The message for a handler that no constant can be named after.
pub open spec fn raw_name_message() -> Seq<char> {
    "a handler with a raw identifier for a name cannot be annotated"@
}

/// Whether `name` is a raw identifier.
fn starts_raw(name: &str) -> (raw: bool)
    ensures
        raw == is_raw(name@),
{
    name.unicode_len() >= 2 && name.get_char(0) == 'r' && name.get_char(1) == '#'
}

/// Whether `outcome` is what the annotation with `method` and `args` makes
/// of the function `input` with the signature `handler`: the annotation is
/// refused where the handler's name is a raw identifier.
pub open spec fn assembled(
    method: HttpMethod,
    args: RouteArgs,
    handler: Handler,
    input: Seq<char>,
    outcome: Result<Expansion, AnnotationError>,
) -> bool {
    if is_raw(handler.name@) {
        outcome matches Err(AnnotationError::InvalidHandler(reason)) && reason@
            == raw_name_message()
    } else {
        &&& outcome matches Ok(expansion)
        &&& expansion.function@ == input
        &&& expansion.constant@ == constant_text(handler.visibility@, handler.name@, args.literal@)
        &&& expansion.descriptor.method == method
        &&& expansion.descriptor.path@ == args.path@
        &&& expansion.descriptor.handler@ == handler.name@
    }
}

/// Puts the expansion together from the parsed argument and the parsed
/// signature of the function `input`.
pub fn assemble(method: HttpMethod, args: RouteArgs, handler: Handler, input: &str) -> (outcome:
    Result<Expansion, AnnotationError>)
    ensures
        assembled(method, args, handler, input@, outcome),
{
    if starts_raw(handler.name.as_str()) {
        return Err(
            AnnotationError::InvalidHandler(
                String::from_str("a handler with a raw identifier for a name cannot be annotated"),
            ),
        );
    }
    let mut constant = String::from_str("#[allow(non_upper_case_globals)] ");
    let visibility = handler.visibility.text();
    constant.append(visibility.as_str());
    constant.append("const ");
    let descriptor = RouteDescriptor { method, path: args.path, handler: handler.name };
    let name = descriptor.constant_name();
    constant.append(name.as_str());
    constant.append(": &str = ");
    constant.append(args.literal.as_str());
    constant.append(";");
    proof {
        assert(constant@ =~= constant_text(handler.visibility@, handler.name@, args.literal@));
    }
    Ok(Expansion { function: String::from_str(input), constant, descriptor })
}

/// Whether `outcome` is what the annotation with `method` makes of the
/// argument `args` and the item `input`: the annotation is refused where
/// `args` is not one string literal, and else where `input` is not a function
/// or is one with a raw identifier for a name; otherwise the function is
/// handed back as it was, with the constant and the descriptor of its route.
pub open spec fn expanded(
    method: HttpMethod,
    args: Seq<char>,
    input: Seq<char>,
    outcome: Result<Expansion, AnnotationError>,
) -> bool {
    match parsed_args(args) {
        None => outcome matches Err(AnnotationError::InvalidPath(_)),
        Some((path, literal)) => match parsed_handler(input) {
            None => outcome matches Err(AnnotationError::InvalidHandler(_)),
            Some((name, visibility)) => if is_raw(name) {
                outcome matches Err(AnnotationError::InvalidHandler(reason)) && reason@
                    == raw_name_message()
            } else {
                &&& outcome matches Ok(expansion)
                &&& expansion.function@ == input
                &&& expansion.constant@ == constant_text(visibility, name, literal)
                &&& expansion.descriptor.method == method
                &&& expansion.descriptor.path@ == path
                &&& expansion.descriptor.handler@ == name
            },
        },
    }
}

/// Expands an annotation. `args` is the text between the annotation's
/// brackets and `input` the text of the annotated item.
pub fn expand_route_macro(method: HttpMethod, args: &str, input: &str) -> (outcome: Result<
    Expansion,
    AnnotationError,
>)
    ensures
        expanded(method, args@, input@, outcome),
{
    let args = match RouteArgs::parse(args) {
        Ok(read) => read,
        Err(error) => {
            return Err(error);
        },
    };
    let handler = match Handler::parse(input) {
        Ok(read) => read,
        Err(error) => {
            return Err(error);
        },
    };
    assemble(method, args, handler, input)
}

/// Expands a `get` annotation.
pub fn get(args: &str, input: &str) -> (outcome: Result<Expansion, AnnotationError>)
    ensures
        expanded(HttpMethod::Get, args@, input@, outcome),
{
    expand_route_macro(HttpMethod::Get, args, input)
}

/// Expands a `post` annotation.
pub fn post(args: &str, input: &str) -> (outcome: Result<Expansion, AnnotationError>)
    ensures
        expanded(HttpMethod::Post, args@, input@, outcome),
{
    expand_route_macro(HttpMethod::Post, args, input)
}

/// Expands a `put` annotation.
pub fn put(args: &str, input: &str) -> (outcome: Result<Expansion, AnnotationError>)
    ensures
        expanded(HttpMethod::Put, args@, input@, outcome),
{
    expand_route_macro(HttpMethod::Put, args, input)
}

/// Expands a `delete` annotation.
pub fn delete(args: &str, input: &str) -> (outcome: Result<Expansion, AnnotationError>)
    ensures
        expanded(HttpMethod::Delete, args@, input@, outcome),
{
    expand_route_macro(HttpMethod::Delete, args, input)
}

/// Expands a `patch` annotation.
pub fn patch(args: &str, input: &str) -> (outcome: Result<Expansion, AnnotationError>)
    ensures
        expanded(HttpMethod::Patch, args@, input@, outcome),
{
    expand_route_macro(HttpMethod::Patch, args, input)
}

/// An annotation with a valid path on a function that a constant can be
/// named after comes back whole: the descriptor shows the verb of the
/// annotation and the path that the literal denotes, and the function is
/// handed back as it was written.
pub proof fn lemma_annotation_round_trip(
    method: HttpMethod,
    args: Seq<char>,
    input: Seq<char>,
    outcome: Result<Expansion, AnnotationError>,
)
    requires
        expanded(method, args, input, outcome),
        parsed_args(args) is Some,
        parsed_handler(input) matches Some((name, _)) && !is_raw(name),
    ensures
        outcome matches Ok(expansion) && expansion.descriptor.method == method
            && expansion.descriptor.path@ == parsed_args(args)->Some_0.0 && expansion.function@
            == input,
{
}

} // verus!
