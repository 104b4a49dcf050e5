//! Annotations as they are written on a declaration, and the directives
//! that they are read into.

use crate::error::MacroError;
use crate::text::text_is;
use vstd::prelude::*;

verus! {

/// One argument of an annotation's argument list.
#[derive(Clone, Debug)]
pub enum AnnotationArg {
    /// A bare path, such as `skip` or `ErrorType`.
    Path(String),
    /// `key = "value"`: the key, the literal's value, and the argument as it
    /// was written.
    NameValue { key: String, value: String, text: String },
    /// Any other form, as it was written.
    Other(String),
}

/// The model of an [`AnnotationArg`].
pub enum AnnotationArgView {
    Path(Seq<char>),
    NameValue { key: Seq<char>, value: Seq<char>, text: Seq<char> },
    Other(Seq<char>),
}

impl DeepView for AnnotationArg {
    type V = AnnotationArgView;

    open spec fn deep_view(&self) -> AnnotationArgView {
        match self {
            AnnotationArg::Path(path) => AnnotationArgView::Path(path@),
            AnnotationArg::NameValue { key, value, text } => AnnotationArgView::NameValue {
                key: key@,
                value: value@,
                text: text@,
            },
            AnnotationArg::Other(text) => AnnotationArgView::Other(text@),
        }
    }
}

impl AnnotationArgView {
    /// The argument as it was written.
    pub open spec fn text(self) -> Seq<char> {
        match self {
            AnnotationArgView::Path(path) => path,
            AnnotationArgView::NameValue { key, value, text } => text,
            AnnotationArgView::Other(text) => text,
        }
    }

    /// Whether the argument is the bare path `word`.
    pub open spec fn is_word(self, word: Seq<char>) -> bool {
        self == AnnotationArgView::Path(word)
    }

    /// Whether the argument gives a target name: `rename = "..."`, or the
    /// same under the key `name`.
    pub open spec fn is_rename(self) -> bool {
        match self {
            AnnotationArgView::NameValue { key, value, text } => key == "rename"@ || key
                == "name"@,
            _ => false,
        }
    }
}

impl AnnotationArg {
    /// The argument as it was written.
    pub fn text(&self) -> (text: String)
        ensures
            text@ == self.deep_view().text(),
    {
        match self {
            AnnotationArg::Path(path) => path.clone(),
            AnnotationArg::NameValue { key, value, text } => text.clone(),
            AnnotationArg::Other(text) => text.clone(),
        }
    }

    /// Whether the argument is the bare path `word`.
    pub fn is_word(&self, word: &str) -> (yes: bool)
        ensures
            yes == self.deep_view().is_word(word@),
    {
        match self {
            AnnotationArg::Path(path) => text_is(path, word),
            _ => false,
        }
    }
}

/// One annotation: its name and, where it has one, its argument list.
/// `#[skip_me]` has no list, `#[skip_me()]` an empty one.
#[derive(Clone, Debug)]
pub struct Annotation {
    pub name: String,
    pub args: Option<Vec<AnnotationArg>>,
}

/// The model of an [`Annotation`].
pub struct AnnotationView {
    pub name: Seq<char>,
    pub args: Option<Seq<AnnotationArgView>>,
}

impl DeepView for Annotation {
    type V = AnnotationView;

    open spec fn deep_view(&self) -> AnnotationView {
        AnnotationView { name: self.name@, args: self.args.deep_view() }
    }
}

/// What an annotation asks of a derivation.
#[derive(Clone, Debug)]
pub enum Directive {
    /// Leave the field out.
    Skip,
    /// The field is always read: it stays required, and gets no flag.
    Always,
    /// The derived declaration goes by this name.
    Rename(String),
    /// The derived field is public.
    MakePublic,
    /// This attribute is put on the derived item.
    AttachTrait(String),
    /// The variant's kind is that of the value it wraps.
    Transparent,
    /// The variant's kind is this variant of this enumeration.
    KindMapping(String, String),
}

/// The model of a [`Directive`].
pub enum DirectiveView {
    Skip,
    Always,
    Rename(Seq<char>),
    MakePublic,
    AttachTrait(Seq<char>),
    Transparent,
    KindMapping(Seq<char>, Seq<char>),
}

impl DeepView for Directive {
    type V = DirectiveView;

    open spec fn deep_view(&self) -> DirectiveView {
        match self {
            Directive::Skip => DirectiveView::Skip,
            Directive::Always => DirectiveView::Always,
            Directive::Rename(name) => DirectiveView::Rename(name@),
            Directive::MakePublic => DirectiveView::MakePublic,
            Directive::AttachTrait(attribute) => DirectiveView::AttachTrait(attribute@),
            Directive::Transparent => DirectiveView::Transparent,
            Directive::KindMapping(enumeration, variant) => DirectiveView::KindMapping(
                enumeration@,
                variant@,
            ),
        }
    }
}

/// Which directives are legal where an annotation stands.
#[derive(Clone, Copy, Debug, PartialEq, Eq, Structural)]
pub enum Vocabulary {
    /// On a type: `rename = "Name"`, the target-name override.
    TargetName,
    /// On a field: `skip`.
    SkipField,
    /// On a field: `always`.
    AlwaysField,
    /// On a field: `skip`, `pub`, and anything else to be copied through.
    CopiedField,
    /// On a variant: `transparent`, or an enumeration and one of its
    /// variants.
    KindVariant,
    /// On a variant: an enumeration and one of its variants.
    LiteralKindVariant,
}

/// What one argument of a copied field's annotation asks for.
pub open spec fn copied_field_directive(arg: AnnotationArgView) -> DirectiveView {
    if arg.is_word("skip"@) {
        DirectiveView::Skip
    } else if arg.is_word("pub"@) {
        DirectiveView::MakePublic
    } else {
        DirectiveView::AttachTrait(arg.text())
    }
}

/// The directives that an argument list stands for under a vocabulary, or
/// the failure where it fits none of them.
pub open spec fn directives_of_args(
    vocabulary: Vocabulary,
    args: Seq<AnnotationArgView>,
) -> Result<Seq<DirectiveView>, MacroError> {
    match vocabulary {
        Vocabulary::TargetName => if args.len() == 1 && args[0].is_rename() {
            Ok(seq![DirectiveView::Rename(args[0]->value)])
        } else {
            Err(MacroError::MalformedAnnotation)
        },
        Vocabulary::SkipField => if args.len() == 1 && args[0].is_word("skip"@) {
            Ok(seq![DirectiveView::Skip])
        } else {
            Err(MacroError::MalformedAnnotation)
        },
        Vocabulary::AlwaysField => if args.len() == 1 && args[0].is_word("always"@) {
            Ok(seq![DirectiveView::Always])
        } else {
            Err(MacroError::MalformedAnnotation)
        },
        Vocabulary::CopiedField => Ok(
            Seq::new(args.len(), |i: int| copied_field_directive(args[i])),
        ),
        Vocabulary::KindVariant => if args.len() == 2 && args[0] is Path && args[1] is Path {
            Ok(seq![DirectiveView::KindMapping(args[0].text(), args[1].text())])
        } else if args.len() == 1 && args[0].is_word("transparent"@) {
            Ok(seq![DirectiveView::Transparent])
        } else {
            Err(MacroError::MalformedAnnotation)
        },
        Vocabulary::LiteralKindVariant => if args.len() == 2 && args[0] is Path
            && args[1] is Path {
            Ok(seq![DirectiveView::KindMapping(args[0].text(), args[1].text())])
        } else {
            Err(MacroError::MalformedAnnotation)
        },
    }
}

/// The directives that an annotation stands for under a vocabulary. An
/// annotation without an argument list names no directive and is malformed.
pub open spec fn directives_of(vocabulary: Vocabulary, annotation: AnnotationView) -> Result<
    Seq<DirectiveView>,
    MacroError,
> {
    match annotation.args {
        Some(args) => directives_of_args(vocabulary, args),
        None => Err(MacroError::MalformedAnnotation),
    }
}

/// Directives or a failure, with the directives taken by their models.
pub open spec fn directive_outcome(outcome: Result<Vec<Directive>, MacroError>) -> Result<
    Seq<DirectiveView>,
    MacroError,
> {
    match outcome {
        Ok(directives) => Ok(directives.deep_view()),
        Err(error) => Err(error),
    }
}

/// A list that holds one directive.
fn single(directive: Directive) -> (list: Vec<Directive>)
    ensures
        list.deep_view() == seq![directive.deep_view()],
{
    let mut list: Vec<Directive> = Vec::new();
    list.push(directive);
    proof {
        assert(list.deep_view() =~= seq![directive.deep_view()]);
    }
    list
}

/// Whether the argument is a bare path.
pub fn is_path(arg: &AnnotationArg) -> (yes: bool)
    ensures
        yes == (arg.deep_view() is Path),
{
    match arg {
        AnnotationArg::Path(_) => true,
        _ => false,
    }
}

/// Reads `enumeration, variant` into a kind mapping.
fn parse_kind_mapping(args: &Vec<AnnotationArg>) -> (outcome: Result<Vec<Directive>, MacroError>)
    ensures
        directive_outcome(outcome) == directives_of_args(
            Vocabulary::LiteralKindVariant,
            args.deep_view(),
        ),
{
    if args.len() == 2 && is_path(&args[0]) && is_path(&args[1]) {
        Ok(single(Directive::KindMapping(args[0].text(), args[1].text())))
    } else {
        Err(MacroError::MalformedAnnotation)
    }
}

/// Reads a list that must hold the one bare word `word`.
fn parse_single_word(args: &Vec<AnnotationArg>, word: &str, directive: Directive) -> (outcome:
    Result<Vec<Directive>, MacroError>)
    ensures
        directive_outcome(outcome) == if args.deep_view().len() == 1
            && args.deep_view()[0].is_word(word@) {
            Ok::<Seq<DirectiveView>, MacroError>(seq![directive.deep_view()])
        } else {
            Err(MacroError::MalformedAnnotation)
        },
{
    if args.len() == 1 && args[0].is_word(word) {
        Ok(single(directive))
    } else {
        Err(MacroError::MalformedAnnotation)
    }
}

/// Reads a target-name override.
fn parse_target_name(args: &Vec<AnnotationArg>) -> (outcome: Result<Vec<Directive>, MacroError>)
    ensures
        directive_outcome(outcome) == directives_of_args(
            Vocabulary::TargetName,
            args.deep_view(),
        ),
{
    if args.len() != 1 {
        return Err(MacroError::MalformedAnnotation);
    }
    match &args[0] {
        AnnotationArg::NameValue { key, value, text } => {
            if text_is(key, "rename") || text_is(key, "name") {
                Ok(single(Directive::Rename(value.clone())))
            } else {
                Err(MacroError::MalformedAnnotation)
            }
        },
        _ => Err(MacroError::MalformedAnnotation),
    }
}

/// Reads the arguments of a copied field's annotation, one directive each.
fn parse_copied_field(args: &Vec<AnnotationArg>) -> (list: Vec<Directive>)
    ensures
        Ok::<Seq<DirectiveView>, MacroError>(list.deep_view()) == directives_of_args(
            Vocabulary::CopiedField,
            args.deep_view(),
        ),
{
    let mut list: Vec<Directive> = Vec::new();
    let mut i: usize = 0;
    while i < args.len()
        invariant
            i <= args.len(),
            list.len() == i,
            forall|k: int|
                0 <= k < i ==> (#[trigger] list[k]).deep_view() == copied_field_directive(
                    args[k].deep_view(),
                ),
        decreases args.len() - i,
    {
        let directive = if args[i].is_word("skip") {
            Directive::Skip
        } else if args[i].is_word("pub") {
            Directive::MakePublic
        } else {
            Directive::AttachTrait(args[i].text())
        };
        list.push(directive);
        i += 1;
    }
    proof {
        assert(list.deep_view() =~= Seq::new(
            args.deep_view().len(),
            |i: int| copied_field_directive(args.deep_view()[i]),
        ));
    }
    list
}

/// Reads one annotation into the directives that it stands for under the
/// vocabulary of the place where it was found. An annotation without an
/// argument list, with the wrong number of arguments, or with a directive
/// that the vocabulary does not hold is malformed.
pub fn parse_directive(vocabulary: Vocabulary, annotation: &Annotation) -> (outcome: Result<
    Vec<Directive>,
    MacroError,
>)
    ensures
        directive_outcome(outcome) == directives_of(vocabulary, annotation.deep_view()),
{
    let args = match &annotation.args {
        Some(args) => args,
        None => {
            return Err(MacroError::MalformedAnnotation);
        },
    };
    match vocabulary {
        Vocabulary::TargetName => parse_target_name(args),
        Vocabulary::SkipField => parse_single_word(args, "skip", Directive::Skip),
        Vocabulary::AlwaysField => parse_single_word(args, "always", Directive::Always),
        Vocabulary::CopiedField => Ok(parse_copied_field(args)),
        Vocabulary::KindVariant => {
            if args.len() == 1 {
                parse_single_word(args, "transparent", Directive::Transparent)
            } else {
                parse_kind_mapping(args)
            }
        },
        Vocabulary::LiteralKindVariant => parse_kind_mapping(args),
    }
}

} // verus!
