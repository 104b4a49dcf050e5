//! Statement synthesis: reading a flat argument sequence into a request and
//! rendering one of four SQL statement templates from it.
//!
//! Arguments arrive as source text, one token per argument or comma. A
//! column must be a string literal. The table and the filter are opaque: a
//! string literal stands for its value, any other expression is written
//! into the statement as it stands, or is left to be evaluated where the
//! statement is used.

use crate::error::MacroError;
use crate::literal::{opens_string_literal, read_string_literal};
use crate::text::{join, join_with};
use vstd::prelude::*;
use vstd::string::StringExecFns;

verus! {

/// Which of the four templates is rendered.
#[derive(Clone, Copy, Debug, PartialEq, Eq, Structural)]
pub enum StatementVerb {
    Insert,
    Select,
    Update,
    Delete,
}

/// One token of a macro's argument list, as source text.
#[derive(Clone, Debug)]
pub enum ArgToken {
    /// The comma between two arguments.
    Comma,
    /// One argument, as it was written.
    Term(String),
}

/// The model of an [`ArgToken`].
pub enum ArgTokenView {
    Comma,
    Term(Seq<char>),
}

impl DeepView for ArgToken {
    type V = ArgTokenView;

    open spec fn deep_view(&self) -> ArgTokenView {
        match self {
            ArgToken::Comma => ArgTokenView::Comma,
            ArgToken::Term(source) => ArgTokenView::Term(source@),
        }
    }
}

/// One argument after its text has been read.
#[derive(Clone, Debug, PartialEq, Eq)]
pub enum Argument {
    /// The comma between two arguments.
    Separator,
    /// A string literal, by its value.
    Literal(String),
    /// Any other expression, by its source text.
    Expression(String),
}

/// The model of an [`Argument`].
pub enum ArgumentView {
    Separator,
    Literal(Seq<char>),
    Expression(Seq<char>),
}

impl DeepView for Argument {
    type V = ArgumentView;

    open spec fn deep_view(&self) -> ArgumentView {
        match self {
            Argument::Separator => ArgumentView::Separator,
            Argument::Literal(value) => ArgumentView::Literal(value@),
            Argument::Expression(source) => ArgumentView::Expression(source@),
        }
    }
}

impl ArgumentView {
    /// Whether this is an argument rather than a comma.
    pub open spec fn is_term(self) -> bool {
        !(self is Separator)
    }

    /// The text that the argument contributes to a statement: a literal's
    /// value, an expression verbatim.
    pub open spec fn text(self) -> Seq<char> {
        match self {
            ArgumentView::Separator => Seq::empty(),
            ArgumentView::Literal(value) => value,
            ArgumentView::Expression(source) => source,
        }
    }
}

impl Argument {
    /// A copy of the argument.
    pub fn duplicate(&self) -> (copy: Argument)
        ensures
            copy.deep_view() == self.deep_view(),
    {
        match self {
            Argument::Separator => Argument::Separator,
            Argument::Literal(value) => Argument::Literal(value.clone()),
            Argument::Expression(source) => Argument::Expression(source.clone()),
        }
    }

    /// The text that the argument contributes to a statement.
    pub fn text(&self) -> (text: &str)
        ensures
            text@ == self.deep_view().text(),
    {
        match self {
            Argument::Separator => {
                proof {
                    reveal_strlit("");
                    assert(""@ =~= Seq::<char>::empty());
                }
                ""
            },
            Argument::Literal(value) => value.as_str(),
            Argument::Expression(source) => source.as_str(),
        }
    }
}

/// What a statement is rendered from: the table, the columns in argument
/// order (duplicates kept), and the filter if one was given. The table and
/// the filter are arguments as they were read, so that a literal can be
/// told from an expression.
pub struct StatementRequest {
    pub table: ArgumentView,
    pub columns: Seq<Seq<char>>,
    pub filter: Option<ArgumentView>,
}

/// Whether a token can read as an argument: a comma reads as a separator;
/// a term reads as the expression that it is written as, or, where it
/// opens as a string literal does, as a literal of some value.
pub open spec fn reads_as(token: ArgTokenView, argument: ArgumentView) -> bool {
    match token {
        ArgTokenView::Comma => argument is Separator,
        ArgTokenView::Term(source) => argument == ArgumentView::Expression(source) || (
        argument is Literal && opens_string_literal(source)),
    }
}

/// Whether the tokens can read as the arguments, one for one and in order.
pub open spec fn read_from(tokens: Seq<ArgTokenView>, args: Seq<ArgumentView>) -> bool {
    args.len() == tokens.len() && forall|i: int|
        0 <= i < tokens.len() ==> reads_as(tokens[i], #[trigger] args[i])
}

/// Whether a statement in pieces can come of the tokens under a verb: it is
/// what the arguments yield that the tokens read as.
pub open spec fn expands_to(
    verb: StatementVerb,
    tokens: Seq<ArgTokenView>,
    outcome: Result<Seq<SegmentView>, MacroError>,
) -> bool {
    exists|args: Seq<ArgumentView>| #[trigger]
        read_from(tokens, args) && outcome == expansion_of(verb, args)
}

/// Whether a statement can come of the tokens under a verb: it is what the
/// arguments yield that the tokens read as.
pub open spec fn synthesizes_to(
    verb: StatementVerb,
    tokens: Seq<ArgTokenView>,
    outcome: Result<Seq<char>, MacroError>,
) -> bool {
    exists|args: Seq<ArgumentView>| #[trigger]
        read_from(tokens, args) && outcome == statement_of(verb, args)
}

/// The arguments open with a table and the comma behind it.
pub open spec fn has_header(args: Seq<ArgumentView>) -> bool {
    args.len() >= 2 && args[0].is_term() && args[1] is Separator
}

/// Whether an argument stands between the header and position `i`.
pub open spec fn term_before(args: Seq<ArgumentView>, i: int) -> bool
    decreases i,
{
    if i <= 2 {
        false
    } else {
        args[i - 1].is_term() || term_before(args, i - 1)
    }
}

/// Whether a comma stands directly behind position `i`.
pub open spec fn separator_follows(args: Seq<ArgumentView>, i: int) -> bool {
    i + 1 < args.len() && args[i + 1] is Separator
}

/// Position `i` holds a column: an argument behind the header that is
/// followed by a comma, or that is the first argument behind the header.
pub open spec fn column_at(args: Seq<ArgumentView>, i: int) -> bool {
    2 <= i < args.len() && args[i].is_term() && (separator_follows(args, i) || !term_before(
        args,
        i,
    ))
}

/// Position `i` holds a filter: an argument behind the header that no comma
/// follows and that is not the first.
pub open spec fn filter_at(args: Seq<ArgumentView>, i: int) -> bool {
    2 <= i < args.len() && args[i].is_term() && !column_at(args, i)
}

/// The columns among the first `n` positions, in order.
pub open spec fn columns_upto(args: Seq<ArgumentView>, n: int) -> Seq<Seq<char>>
    decreases n,
{
    if n <= 2 {
        Seq::empty()
    } else if column_at(args, n - 1) {
        columns_upto(args, n - 1).push(args[n - 1].text())
    } else {
        columns_upto(args, n - 1)
    }
}

/// The last filter among the first `n` positions.
pub open spec fn filter_upto(args: Seq<ArgumentView>, n: int) -> Option<ArgumentView>
    decreases n,
{
    if n <= 2 {
        None
    } else if filter_at(args, n - 1) {
        Some(args[n - 1])
    } else {
        filter_upto(args, n - 1)
    }
}

/// Every column position holds a string literal.
pub open spec fn columns_are_literals(args: Seq<ArgumentView>) -> bool {
    forall|i: int| #[trigger] column_at(args, i) ==> args[i] is Literal
}

/// The request that a SELECT or UPDATE argument list stands for.
pub open spec fn select_update_request(args: Seq<ArgumentView>) -> Result<
    StatementRequest,
    MacroError,
> {
    if has_header(args) && columns_are_literals(args) {
        Ok(
            StatementRequest {
                table: args[0],
                columns: columns_upto(args, args.len() as int),
                filter: filter_upto(args, args.len() as int),
            },
        )
    } else {
        Err(MacroError::AmbiguousArgument)
    }
}

/// Behind the header an INSERT argument list holds string literals only,
/// each followed by at most one comma.
pub open spec fn insert_args_well_formed(args: Seq<ArgumentView>) -> bool {
    has_header(args) && forall|i: int|
        2 <= i < args.len() ==> (#[trigger] args[i] is Literal || (args[i] is Separator && i >= 3
            && args[i - 1] is Literal))
}

/// The string literals among the first `n` positions behind the header, in
/// order.
pub open spec fn literals_upto(args: Seq<ArgumentView>, n: int) -> Seq<Seq<char>>
    decreases n,
{
    if n <= 2 {
        Seq::empty()
    } else if args[n - 1] is Literal {
        literals_upto(args, n - 1).push(args[n - 1].text())
    } else {
        literals_upto(args, n - 1)
    }
}

/// The request that an INSERT argument list stands for.
pub open spec fn insert_request(args: Seq<ArgumentView>) -> Result<StatementRequest, MacroError> {
    if insert_args_well_formed(args) {
        Ok(
            StatementRequest {
                table: args[0],
                columns: literals_upto(args, args.len() as int),
                filter: None,
            },
        )
    } else {
        Err(MacroError::AmbiguousArgument)
    }
}

/// The request that a DELETE argument list stands for: a table, a comma and
/// a filter, and nothing else.
pub open spec fn delete_request(args: Seq<ArgumentView>) -> Result<StatementRequest, MacroError> {
    if args.len() == 3 && has_header(args) && args[2].is_term() {
        Ok(StatementRequest { table: args[0], columns: Seq::empty(), filter: Some(args[2]) })
    } else {
        Err(MacroError::AmbiguousArgument)
    }
}

/// The request that an argument list stands for under a verb.
pub open spec fn request_of(verb: StatementVerb, args: Seq<ArgumentView>) -> Result<
    StatementRequest,
    MacroError,
> {
    match verb {
        StatementVerb::Insert => insert_request(args),
        StatementVerb::Select => select_update_request(args),
        StatementVerb::Update => select_update_request(args),
        StatementVerb::Delete => delete_request(args),
    }
}

/// Each column as a bind parameter: `:name`.
pub open spec fn bind_parameters(columns: Seq<Seq<char>>) -> Seq<Seq<char>> {
    Seq::new(columns.len(), |i: int| ":"@ + columns[i])
}

/// Each column as an assignment from its bind parameter: `name = :name`.
pub open spec fn assignments(columns: Seq<Seq<char>>) -> Seq<Seq<char>> {
    Seq::new(columns.len(), |i: int| columns[i] + " = :"@ + columns[i])
}

/// What stands behind the table in an INSERT: ` (<cols>) VALUES (<:cols>)`.
pub open spec fn insert_tail(columns: Seq<Seq<char>>) -> Seq<char> {
    " ("@ + join(columns, ", "@) + ") VALUES ("@ + join(bind_parameters(columns), ", "@) + ")"@
}

/// What stands before the table in a SELECT: `SELECT <cols> FROM `.
pub open spec fn select_head(columns: Seq<Seq<char>>) -> Seq<char> {
    "SELECT "@ + join(columns, ", "@) + " FROM "@
}

/// What stands between the table and the filter in an UPDATE:
/// ` SET <col = :col, ...> WHERE `.
pub open spec fn update_middle(columns: Seq<Seq<char>>) -> Seq<char> {
    " SET "@ + join(assignments(columns), ", "@) + " WHERE "@
}

/// `INSERT INTO <table> (<cols>) VALUES (<:cols>)`.
pub open spec fn insert_text(table: Seq<char>, columns: Seq<Seq<char>>) -> Seq<char> {
    "INSERT INTO "@ + table + insert_tail(columns)
}

/// `SELECT <cols> FROM <table>`, with ` WHERE <filter>` behind it where a
/// filter is given.
pub open spec fn select_text(
    table: Seq<char>,
    columns: Seq<Seq<char>>,
    filter: Option<Seq<char>>,
) -> Seq<char> {
    let head = select_head(columns) + table;
    match filter {
        Some(clause) => head + " WHERE "@ + clause,
        None => head,
    }
}

/// `UPDATE <table> SET <col = :col, ...> WHERE <filter>`.
pub open spec fn update_text(
    table: Seq<char>,
    columns: Seq<Seq<char>>,
    filter: Seq<char>,
) -> Seq<char> {
    "UPDATE "@ + table + update_middle(columns) + filter
}

/// `DELETE FROM <table> WHERE <filter>`.
pub open spec fn delete_text(table: Seq<char>, filter: Seq<char>) -> Seq<char> {
    "DELETE FROM "@ + table + " WHERE "@ + filter
}

/// The text of an optional argument.
pub open spec fn optional_text(argument: Option<ArgumentView>) -> Option<Seq<char>> {
    match argument {
        Some(argument) => Some(argument.text()),
        None => None,
    }
}

/// The statement for a verb and a request, with the table and the filter
/// written out as their text. UPDATE and DELETE need a filter; INSERT has no
/// use for one and DELETE none for columns.
pub open spec fn rendered(verb: StatementVerb, request: StatementRequest) -> Result<
    Seq<char>,
    MacroError,
> {
    match verb {
        StatementVerb::Insert => Ok(insert_text(request.table.text(), request.columns)),
        StatementVerb::Select => Ok(
            select_text(request.table.text(), request.columns, optional_text(request.filter)),
        ),
        StatementVerb::Update => match request.filter {
            Some(clause) => Ok(update_text(request.table.text(), request.columns, clause.text())),
            None => Err(MacroError::AmbiguousArgument),
        },
        StatementVerb::Delete => match request.filter {
            Some(clause) => Ok(delete_text(request.table.text(), clause.text())),
            None => Err(MacroError::AmbiguousArgument),
        },
    }
}

/// The statement that an argument list yields under a verb: the verb's own
/// reading of the arguments, then its template.
pub open spec fn statement_of(verb: StatementVerb, args: Seq<ArgumentView>) -> Result<
    Seq<char>,
    MacroError,
> {
    match request_of(verb, args) {
        Ok(request) => rendered(verb, request),
        Err(error) => Err(error),
    }
}

/// A piece of a statement that is put together where it is used.
#[derive(Clone, Debug, PartialEq, Eq)]
pub enum Segment {
    /// Text that is known when the statement is synthesized.
    Text(String),
    /// The source of an expression whose value takes this place.
    Expression(String),
}

/// The model of a [`Segment`].
pub enum SegmentView {
    Text(Seq<char>),
    Expression(Seq<char>),
}

impl DeepView for Segment {
    type V = SegmentView;

    open spec fn deep_view(&self) -> SegmentView {
        match self {
            Segment::Text(text) => SegmentView::Text(text@),
            Segment::Expression(source) => SegmentView::Expression(source@),
        }
    }
}

impl SegmentView {
    /// What the segment holds: its text, or its expression as written.
    pub open spec fn text(self) -> Seq<char> {
        match self {
            SegmentView::Text(text) => text,
            SegmentView::Expression(source) => source,
        }
    }
}

/// The segment for the table or the filter: an expression is left to be
/// evaluated, anything else is text.
pub open spec fn operand_segment(argument: ArgumentView) -> SegmentView {
    match argument {
        ArgumentView::Expression(source) => SegmentView::Expression(source),
        _ => SegmentView::Text(argument.text()),
    }
}

/// The statement for a verb and a request in pieces, the table and the
/// filter each a piece of its own.
pub open spec fn expansion(verb: StatementVerb, request: StatementRequest) -> Result<
    Seq<SegmentView>,
    MacroError,
> {
    match verb {
        StatementVerb::Insert => Ok(
            seq![
                SegmentView::Text("INSERT INTO "@),
                operand_segment(request.table),
                SegmentView::Text(insert_tail(request.columns)),
            ],
        ),
        StatementVerb::Select => match request.filter {
            Some(clause) => Ok(
                seq![
                    SegmentView::Text(select_head(request.columns)),
                    operand_segment(request.table),
                    SegmentView::Text(" WHERE "@),
                    operand_segment(clause),
                ],
            ),
            None => Ok(
                seq![
                    SegmentView::Text(select_head(request.columns)),
                    operand_segment(request.table),
                ],
            ),
        },
        StatementVerb::Update => match request.filter {
            Some(clause) => Ok(
                seq![
                    SegmentView::Text("UPDATE "@),
                    operand_segment(request.table),
                    SegmentView::Text(update_middle(request.columns)),
                    operand_segment(clause),
                ],
            ),
            None => Err(MacroError::AmbiguousArgument),
        },
        StatementVerb::Delete => match request.filter {
            Some(clause) => Ok(
                seq![
                    SegmentView::Text("DELETE FROM "@),
                    operand_segment(request.table),
                    SegmentView::Text(" WHERE "@),
                    operand_segment(clause),
                ],
            ),
            None => Err(MacroError::AmbiguousArgument),
        },
    }
}

/// The pieces that an argument list yields under a verb.
pub open spec fn expansion_of(verb: StatementVerb, args: Seq<ArgumentView>) -> Result<
    Seq<SegmentView>,
    MacroError,
> {
    match request_of(verb, args) {
        Ok(request) => expansion(verb, request),
        Err(error) => Err(error),
    }
}

/// The first `n` pieces written one after another, each expression as it
/// was written.
pub open spec fn flattened_upto(segments: Seq<SegmentView>, n: int) -> Seq<char>
    decreases n,
{
    if n <= 0 {
        Seq::empty()
    } else {
        flattened_upto(segments, n - 1) + segments[n - 1].text()
    }
}

/// The pieces written one after another, each expression as it was
/// written.
pub open spec fn flattened(segments: Seq<SegmentView>) -> Seq<char> {
    flattened_upto(segments, segments.len() as int)
}

/// A produced text or a failure, with the text taken by its characters.
pub open spec fn text_outcome(outcome: Result<String, MacroError>) -> Result<
    Seq<char>,
    MacroError,
> {
    match outcome {
        Ok(text) => Ok(text@),
        Err(error) => Err(error),
    }
}

/// Produced pieces or a failure, with the pieces taken by their models.
pub open spec fn segments_outcome(outcome: Result<Vec<Segment>, MacroError>) -> Result<
    Seq<SegmentView>,
    MacroError,
> {
    match outcome {
        Ok(segments) => Ok(segments.deep_view()),
        Err(error) => Err(error),
    }
}

/// Reads every token. A term that opens as a string literal does is handed
/// to the lexer, which decides whether it is one and what its value is; any
/// other term is an expression. Which way the lexer decides is not stated:
/// what is stated holds of either outcome.
pub fn classify(tokens: &Vec<ArgToken>) -> (args: Vec<Argument>)
    ensures
        read_from(tokens.deep_view(), args.deep_view()),
{
    let mut args: Vec<Argument> = Vec::new();
    let mut i: usize = 0;
    while i < tokens.len()
        invariant
            i <= tokens.len(),
            args.len() == i,
            forall|k: int|
                0 <= k < i ==> reads_as(tokens[k].deep_view(), (#[trigger] args[k]).deep_view()),
        decreases tokens.len() - i,
    {
        let argument = match &tokens[i] {
            ArgToken::Comma => Argument::Separator,
            ArgToken::Term(source) => match read_string_literal(source.as_str()) {
                Some(value) => Argument::Literal(value),
                None => Argument::Expression(source.clone()),
            },
        };
        args.push(argument);
        i += 1;
    }
    proof {
        let read = args.deep_view();
        let written = tokens.deep_view();
        assert forall|k: int| 0 <= k < written.len() implies reads_as(
            written[k],
            #[trigger] read[k],
        ) by {
            assert(read[k] == args[k].deep_view());
        }
    }
    args
}

/// The arguments of a SELECT or an UPDATE: a table, columns, and a filter
/// where one was given.
#[derive(Clone, Debug)]
pub struct SelectUpdateQueryInput {
    pub table_name: Argument,
    pub where_clause: Option<Argument>,
    pub cols: Vec<String>,
}

impl DeepView for SelectUpdateQueryInput {
    type V = StatementRequest;

    open spec fn deep_view(&self) -> StatementRequest {
        StatementRequest {
            table: self.table_name.deep_view(),
            columns: self.cols.deep_view(),
            filter: self.where_clause.deep_view(),
        }
    }
}

/// The arguments of an INSERT: a table and columns.
#[derive(Clone, Debug)]
pub struct InsertQueryInput {
    pub table_name: Argument,
    pub cols: Vec<String>,
}

impl DeepView for InsertQueryInput {
    type V = StatementRequest;

    open spec fn deep_view(&self) -> StatementRequest {
        StatementRequest {
            table: self.table_name.deep_view(),
            columns: self.cols.deep_view(),
            filter: None,
        }
    }
}

/// The arguments of a DELETE: a table and a filter.
#[derive(Clone, Debug)]
pub struct DeleteQueryInput {
    pub table_name: Argument,
    pub where_clause: Argument,
}

impl DeepView for DeleteQueryInput {
    type V = StatementRequest;

    open spec fn deep_view(&self) -> StatementRequest {
        StatementRequest {
            table: self.table_name.deep_view(),
            columns: Seq::empty(),
            filter: Some(self.where_clause.deep_view()),
        }
    }
}

/// A request or a failure, with the request taken by its model.
pub open spec fn request_outcome<T: DeepView<V = StatementRequest>>(
    outcome: Result<T, MacroError>,
) -> Result<StatementRequest, MacroError> {
    match outcome {
        Ok(input) => Ok(input.deep_view()),
        Err(error) => Err(error),
    }
}

/// Whether the arguments open with a table and the comma behind it.
fn starts_with_header(args: &Vec<Argument>) -> (yes: bool)
    ensures
        yes == has_header(args.deep_view()),
{
    if args.len() < 2 {
        return false;
    }
    let table_is_term = match &args[0] {
        Argument::Separator => false,
        _ => true,
    };
    let comma_follows = match &args[1] {
        Argument::Separator => true,
        _ => false,
    };
    table_is_term && comma_follows
}

/// The segment for the table or the filter.
fn segment_of(argument: &Argument) -> (segment: Segment)
    ensures
        segment.deep_view() == operand_segment(argument.deep_view()),
{
    match argument {
        Argument::Expression(source) => Segment::Expression(source.clone()),
        _ => Segment::Text(String::from_str(argument.text())),
    }
}

/// Each column with a colon before it.
fn bind_parameter_list(columns: &Vec<String>) -> (out: Vec<String>)
    ensures
        out.deep_view() == bind_parameters(columns.deep_view()),
{
    let mut out: Vec<String> = Vec::new();
    let mut i: usize = 0;
    while i < columns.len()
        invariant
            i <= columns.len(),
            out.len() == i,
            forall|k: int| 0 <= k < i ==> (#[trigger] out[k])@ == ":"@ + columns[k]@,
        decreases columns.len() - i,
    {
        let mut item = String::from_str(":");
        item.append(columns[i].as_str());
        out.push(item);
        i += 1;
    }
    proof {
        assert(out.deep_view() =~= bind_parameters(columns.deep_view()));
    }
    out
}

/// Each column as `name = :name`.
fn assignment_list(columns: &Vec<String>) -> (out: Vec<String>)
    ensures
        out.deep_view() == assignments(columns.deep_view()),
{
    let mut out: Vec<String> = Vec::new();
    let mut i: usize = 0;
    while i < columns.len()
        invariant
            i <= columns.len(),
            out.len() == i,
            forall|k: int|
                0 <= k < i ==> (#[trigger] out[k])@ == columns[k]@ + " = :"@ + columns[k]@,
        decreases columns.len() - i,
    {
        let mut item = columns[i].clone();
        item.append(" = :");
        item.append(columns[i].as_str());
        out.push(item);
        i += 1;
    }
    proof {
        assert(out.deep_view() =~= assignments(columns.deep_view()));
    }
    out
}

/// Writes what stands behind the table in an INSERT.
fn render_insert_tail(columns: &Vec<String>) -> (text: String)
    ensures
        text@ == insert_tail(columns.deep_view()),
{
    let names = join_with(columns, ", ");
    let values = join_with(&bind_parameter_list(columns), ", ");
    let mut text = String::from_str(" (");
    text.append(names.as_str());
    text.append(") VALUES (");
    text.append(values.as_str());
    text.append(")");
    text
}

/// Writes what stands before the table in a SELECT.
fn render_select_head(columns: &Vec<String>) -> (text: String)
    ensures
        text@ == select_head(columns.deep_view()),
{
    let names = join_with(columns, ", ");
    let mut text = String::from_str("SELECT ");
    text.append(names.as_str());
    text.append(" FROM ");
    text
}

/// Writes what stands between the table and the filter in an UPDATE.
fn render_update_middle(columns: &Vec<String>) -> (text: String)
    ensures
        text@ == update_middle(columns.deep_view()),
{
    let pairs = join_with(&assignment_list(columns), ", ");
    let mut text = String::from_str(" SET ");
    text.append(pairs.as_str());
    text.append(" WHERE ");
    text
}

/// Writes the INSERT template.
pub fn render_insert(table: &str, columns: &Vec<String>) -> (text: String)
    ensures
        text@ == insert_text(table@, columns.deep_view()),
{
    let tail = render_insert_tail(columns);
    let mut text = String::from_str("INSERT INTO ");
    text.append(table);
    text.append(tail.as_str());
    text
}

/// Writes the SELECT template, with the WHERE clause where a filter is
/// given.
pub fn render_select(table: &str, columns: &Vec<String>, filter: Option<&str>) -> (text: String)
    ensures
        text@ == select_text(
            table@,
            columns.deep_view(),
            match filter {
                Some(clause) => Some(clause@),
                None => None,
            },
        ),
{
    let mut text = render_select_head(columns);
    text.append(table);
    match filter {
        Some(clause) => {
            text.append(" WHERE ");
            text.append(clause);
        },
        None => {},
    }
    text
}

/// Writes the UPDATE template.
pub fn render_update(table: &str, columns: &Vec<String>, filter: &str) -> (text: String)
    ensures
        text@ == update_text(table@, columns.deep_view(), filter@),
{
    let middle = render_update_middle(columns);
    let mut text = String::from_str("UPDATE ");
    text.append(table);
    text.append(middle.as_str());
    text.append(filter);
    text
}

/// Writes the DELETE template.
pub fn render_delete(table: &str, filter: &str) -> (text: String)
    ensures
        text@ == delete_text(table@, filter@),
{
    let mut text = String::from_str("DELETE FROM ");
    text.append(table);
    text.append(" WHERE ");
    text.append(filter);
    text
}

/// The pieces of a statement that ends with the table or with text behind
/// it.
fn three_segments(head: &str, table: &Argument, tail: String) -> (segments: Vec<Segment>)
    ensures
        segments.deep_view() == seq![
            SegmentView::Text(head@),
            operand_segment(table.deep_view()),
            SegmentView::Text(tail@),
        ],
{
    let mut segments: Vec<Segment> = Vec::new();
    segments.push(Segment::Text(String::from_str(head)));
    segments.push(segment_of(table));
    segments.push(Segment::Text(tail));
    proof {
        assert(segments.deep_view() =~= seq![
            SegmentView::Text(head@),
            operand_segment(table.deep_view()),
            SegmentView::Text(tail@),
        ]);
    }
    segments
}

/// The pieces of a statement that ends with the filter.
fn four_segments(head: String, table: &Argument, middle: String, filter: &Argument) -> (segments:
    Vec<Segment>)
    ensures
        segments.deep_view() == seq![
            SegmentView::Text(head@),
            operand_segment(table.deep_view()),
            SegmentView::Text(middle@),
            operand_segment(filter.deep_view()),
        ],
{
    let mut segments: Vec<Segment> = Vec::new();
    segments.push(Segment::Text(head));
    segments.push(segment_of(table));
    segments.push(Segment::Text(middle));
    segments.push(segment_of(filter));
    proof {
        assert(segments.deep_view() =~= seq![
            SegmentView::Text(head@),
            operand_segment(table.deep_view()),
            SegmentView::Text(middle@),
            operand_segment(filter.deep_view()),
        ]);
    }
    segments
}

/// The pieces of a SELECT without a filter.
fn two_segments(head: String, table: &Argument) -> (segments: Vec<Segment>)
    ensures
        segments.deep_view() == seq![SegmentView::Text(head@), operand_segment(table.deep_view())],
{
    let mut segments: Vec<Segment> = Vec::new();
    segments.push(Segment::Text(head));
    segments.push(segment_of(table));
    proof {
        assert(segments.deep_view() =~= seq![
            SegmentView::Text(head@),
            operand_segment(table.deep_view()),
        ]);
    }
    segments
}

impl SelectUpdateQueryInput {
    /// Reads a SELECT or UPDATE argument list, left to right with one token
    /// of lookahead. Behind the table and its comma, an argument is a column
    /// where a comma follows it or no argument came before it, and the
    /// filter otherwise; of several filters the last one stays. A column
    /// that is not a string literal, or a missing table or first comma,
    /// fails the reading.
    pub fn parse(args: &Vec<Argument>) -> (outcome: Result<Self, MacroError>)
        ensures
            request_outcome(outcome) == select_update_request(args.deep_view()),
    {
        if !starts_with_header(args) {
            return Err(MacroError::AmbiguousArgument);
        }
        let ghost model = args.deep_view();
        let table_name = args[0].duplicate();
        let mut cols: Vec<String> = Vec::new();
        let mut where_clause: Option<Argument> = None;
        let mut i: usize = 2;
        while i < args.len()
            invariant
                2 <= i <= args.len(),
                model == args.deep_view(),
                cols.deep_view() == columns_upto(model, i as int),
                where_clause.deep_view() == filter_upto(model, i as int),
                (cols.len() == 0) == !term_before(model, i as int),
                forall|k: int| k < i && #[trigger] column_at(model, k) ==> model[k] is Literal,
            decreases args.len() - i,
        {
            let comma_follows = i + 1 < args.len() && match &args[i + 1] {
                Argument::Separator => true,
                _ => false,
            };
            match &args[i] {
                Argument::Separator => {},
                Argument::Literal(value) => {
                    if comma_follows || cols.len() == 0 {
                        let ghost before = cols.deep_view();
                        cols.push(value.clone());
                        proof {
                            assert(cols.deep_view() =~= before.push(value@));
                        }
                    } else {
                        where_clause = Some(args[i].duplicate());
                    }
                },
                Argument::Expression(_) => {
                    if comma_follows || cols.len() == 0 {
                        proof {
                            assert(column_at(model, i as int));
                        }
                        return Err(MacroError::AmbiguousArgument);
                    } else {
                        where_clause = Some(args[i].duplicate());
                    }
                },
            }
            i += 1;
        }
        Ok(SelectUpdateQueryInput { table_name, where_clause, cols })
    }

    /// Renders the request under a verb, the table and the filter written
    /// out as their text. UPDATE and DELETE fail without a filter.
    pub fn render(&self, verb: StatementVerb) -> (outcome: Result<String, MacroError>)
        ensures
            text_outcome(outcome) == rendered(verb, self.deep_view()),
    {
        let table = self.table_name.text();
        match verb {
            StatementVerb::Insert => Ok(render_insert(table, &self.cols)),
            StatementVerb::Select => match &self.where_clause {
                Some(clause) => Ok(render_select(table, &self.cols, Some(clause.text()))),
                None => Ok(render_select(table, &self.cols, None)),
            },
            StatementVerb::Update => match &self.where_clause {
                Some(clause) => Ok(render_update(table, &self.cols, clause.text())),
                None => Err(MacroError::AmbiguousArgument),
            },
            StatementVerb::Delete => match &self.where_clause {
                Some(clause) => Ok(render_delete(table, clause.text())),
                None => Err(MacroError::AmbiguousArgument),
            },
        }
    }

    /// The request under a verb in pieces, the table and the filter each a
    /// piece of its own. UPDATE and DELETE fail without a filter.
    pub fn segments(&self, verb: StatementVerb) -> (outcome: Result<Vec<Segment>, MacroError>)
        ensures
            segments_outcome(outcome) == expansion(verb, self.deep_view()),
    {
        match verb {
            StatementVerb::Insert => Ok(
                three_segments("INSERT INTO ", &self.table_name, render_insert_tail(&self.cols)),
            ),
            StatementVerb::Select => match &self.where_clause {
                Some(clause) => Ok(
                    four_segments(
                        render_select_head(&self.cols),
                        &self.table_name,
                        String::from_str(" WHERE "),
                        clause,
                    ),
                ),
                None => Ok(two_segments(render_select_head(&self.cols), &self.table_name)),
            },
            StatementVerb::Update => match &self.where_clause {
                Some(clause) => Ok(
                    four_segments(
                        String::from_str("UPDATE "),
                        &self.table_name,
                        render_update_middle(&self.cols),
                        clause,
                    ),
                ),
                None => Err(MacroError::AmbiguousArgument),
            },
            StatementVerb::Delete => match &self.where_clause {
                Some(clause) => Ok(
                    four_segments(
                        String::from_str("DELETE FROM "),
                        &self.table_name,
                        String::from_str(" WHERE "),
                        clause,
                    ),
                ),
                None => Err(MacroError::AmbiguousArgument),
            },
        }
    }
}

impl InsertQueryInput {
    /// Reads an INSERT argument list: behind the table and its comma, string
    /// literals, each followed by at most one comma. Anything else fails the
    /// reading.
    pub fn parse(args: &Vec<Argument>) -> (outcome: Result<Self, MacroError>)
        ensures
            request_outcome(outcome) == insert_request(args.deep_view()),
    {
        if !starts_with_header(args) {
            return Err(MacroError::AmbiguousArgument);
        }
        let ghost model = args.deep_view();
        let table_name = args[0].duplicate();
        let mut cols: Vec<String> = Vec::new();
        let mut after_literal = false;
        let mut i: usize = 2;
        while i < args.len()
            invariant
                2 <= i <= args.len(),
                model == args.deep_view(),
                cols.deep_view() == literals_upto(model, i as int),
                after_literal == (i >= 3 && model[i - 1] is Literal),
                forall|k: int|
                    2 <= k < i ==> (#[trigger] model[k] is Literal || (model[k] is Separator && k
                        >= 3 && model[k - 1] is Literal)),
            decreases args.len() - i,
        {
            match &args[i] {
                Argument::Literal(value) => {
                    let ghost before = cols.deep_view();
                    cols.push(value.clone());
                    proof {
                        assert(cols.deep_view() =~= before.push(value@));
                    }
                    after_literal = true;
                },
                Argument::Separator => {
                    if !after_literal {
                        proof {
                            assert(!(model[i as int] is Literal));
                        }
                        return Err(MacroError::AmbiguousArgument);
                    }
                    after_literal = false;
                },
                Argument::Expression(_) => {
                    proof {
                        assert(!(model[i as int] is Literal));
                    }
                    return Err(MacroError::AmbiguousArgument);
                },
            }
            i += 1;
        }
        Ok(InsertQueryInput { table_name, cols })
    }

    /// Renders the INSERT statement, the table written out as its text.
    pub fn render(&self) -> (text: String)
        ensures
            Ok::<Seq<char>, MacroError>(text@) == rendered(
                StatementVerb::Insert,
                self.deep_view(),
            ),
    {
        render_insert(self.table_name.text(), &self.cols)
    }

    /// The INSERT statement in pieces, the table a piece of its own.
    pub fn segments(&self) -> (segments: Vec<Segment>)
        ensures
            Ok::<Seq<SegmentView>, MacroError>(segments.deep_view()) == expansion(
                StatementVerb::Insert,
                self.deep_view(),
            ),
    {
        three_segments("INSERT INTO ", &self.table_name, render_insert_tail(&self.cols))
    }
}

impl DeleteQueryInput {
    /// Reads a DELETE argument list: a table, a comma and a filter, and
    /// nothing else.
    pub fn parse(args: &Vec<Argument>) -> (outcome: Result<Self, MacroError>)
        ensures
            request_outcome(outcome) == delete_request(args.deep_view()),
    {
        if args.len() != 3 || !starts_with_header(args) {
            return Err(MacroError::AmbiguousArgument);
        }
        match &args[2] {
            Argument::Separator => Err(MacroError::AmbiguousArgument),
            _ => Ok(
                DeleteQueryInput {
                    table_name: args[0].duplicate(),
                    where_clause: args[2].duplicate(),
                },
            ),
        }
    }

    /// Renders the DELETE statement, the table and the filter written out
    /// as their text.
    pub fn render(&self) -> (text: String)
        ensures
            Ok::<Seq<char>, MacroError>(text@) == rendered(
                StatementVerb::Delete,
                self.deep_view(),
            ),
    {
        render_delete(self.table_name.text(), self.where_clause.text())
    }

    /// The DELETE statement in pieces, the table and the filter each a
    /// piece of its own.
    pub fn segments(&self) -> (segments: Vec<Segment>)
        ensures
            Ok::<Seq<SegmentView>, MacroError>(segments.deep_view()) == expansion(
                StatementVerb::Delete,
                self.deep_view(),
            ),
    {
        four_segments(
            String::from_str("DELETE FROM "),
            &self.table_name,
            String::from_str(" WHERE "),
            &self.where_clause,
        )
    }
}

/// Writes the pieces one after another, each expression as it was written.
pub fn flatten(segments: &Vec<Segment>) -> (text: String)
    ensures
        text@ == flattened(segments.deep_view()),
{
    let ghost all = segments.deep_view();
    let mut text = String::new();
    let mut i: usize = 0;
    while i < segments.len()
        invariant
            i <= segments.len(),
            all == segments.deep_view(),
            text@ == flattened_upto(all, i as int),
        decreases segments.len() - i,
    {
        match &segments[i] {
            Segment::Text(piece) => text.append(piece.as_str()),
            Segment::Expression(source) => text.append(source.as_str()),
        }
        i += 1;
    }
    text
}

/// The statement for read arguments under a verb: the verb's reading of the
/// arguments, then its template. An expression for the table or the filter
/// is written into the statement as it stands.
pub fn synthesize(verb: StatementVerb, args: &Vec<Argument>) -> (outcome: Result<
    String,
    MacroError,
>)
    ensures
        text_outcome(outcome) == statement_of(verb, args.deep_view()),
{
    match verb {
        StatementVerb::Insert => match InsertQueryInput::parse(args) {
            Ok(input) => Ok(input.render()),
            Err(error) => Err(error),
        },
        StatementVerb::Select => match SelectUpdateQueryInput::parse(args) {
            Ok(input) => input.render(StatementVerb::Select),
            Err(error) => Err(error),
        },
        StatementVerb::Update => match SelectUpdateQueryInput::parse(args) {
            Ok(input) => input.render(StatementVerb::Update),
            Err(error) => Err(error),
        },
        StatementVerb::Delete => match DeleteQueryInput::parse(args) {
            Ok(input) => Ok(input.render()),
            Err(error) => Err(error),
        },
    }
}

/// The statement for read arguments under a verb, in pieces: an expression
/// for the table or the filter is a piece of its own, to be evaluated where
/// the statement is used.
pub fn expand(verb: StatementVerb, args: &Vec<Argument>) -> (outcome: Result<
    Vec<Segment>,
    MacroError,
>)
    ensures
        segments_outcome(outcome) == expansion_of(verb, args.deep_view()),
{
    match verb {
        StatementVerb::Insert => match InsertQueryInput::parse(args) {
            Ok(input) => Ok(input.segments()),
            Err(error) => Err(error),
        },
        StatementVerb::Select => match SelectUpdateQueryInput::parse(args) {
            Ok(input) => input.segments(StatementVerb::Select),
            Err(error) => Err(error),
        },
        StatementVerb::Update => match SelectUpdateQueryInput::parse(args) {
            Ok(input) => input.segments(StatementVerb::Update),
            Err(error) => Err(error),
        },
        StatementVerb::Delete => match DeleteQueryInput::parse(args) {
            Ok(input) => Ok(input.segments()),
            Err(error) => Err(error),
        },
    }
}

/// What `insert_stmt_query!(table, "col", ...)` stands for:
/// `INSERT INTO <table> (<cols>) VALUES (<:cols>)`, in pieces.
pub fn insert_stmt_macro(tokens: &Vec<ArgToken>) -> (outcome: Result<Vec<Segment>, MacroError>)
    ensures
        expands_to(StatementVerb::Insert, tokens.deep_view(), segments_outcome(outcome)),
{
    let args = classify(tokens);
    let outcome = expand(StatementVerb::Insert, &args);
    proof {
        assert(read_from(tokens.deep_view(), args.deep_view()));
    }
    outcome
}

/// What `select_stmt_query!(table, "col", ..., filter)` stands for:
/// `SELECT <cols> FROM <table>[ WHERE <filter>]`, in pieces.
pub fn select_stmt_macro(tokens: &Vec<ArgToken>) -> (outcome: Result<Vec<Segment>, MacroError>)
    ensures
        expands_to(StatementVerb::Select, tokens.deep_view(), segments_outcome(outcome)),
{
    let args = classify(tokens);
    let outcome = expand(StatementVerb::Select, &args);
    proof {
        assert(read_from(tokens.deep_view(), args.deep_view()));
    }
    outcome
}

/// What `update_stmt_query!(table, "col", ..., filter)` stands for:
/// `UPDATE <table> SET <col = :col, ...> WHERE <filter>`, in pieces.
pub fn update_stmt_macro(tokens: &Vec<ArgToken>) -> (outcome: Result<Vec<Segment>, MacroError>)
    ensures
        expands_to(StatementVerb::Update, tokens.deep_view(), segments_outcome(outcome)),
{
    let args = classify(tokens);
    let outcome = expand(StatementVerb::Update, &args);
    proof {
        assert(read_from(tokens.deep_view(), args.deep_view()));
    }
    outcome
}

/// What `delete_stmt_query!(table, filter)` stands for:
/// `DELETE FROM <table> WHERE <filter>`, in pieces.
pub fn delete_stmt_macro(tokens: &Vec<ArgToken>) -> (outcome: Result<Vec<Segment>, MacroError>)
    ensures
        expands_to(StatementVerb::Delete, tokens.deep_view(), segments_outcome(outcome)),
{
    let args = classify(tokens);
    let outcome = expand(StatementVerb::Delete, &args);
    proof {
        assert(read_from(tokens.deep_view(), args.deep_view()));
    }
    outcome
}

/// The INSERT statement for the tokens of `table, "col", ...`.
pub fn insert_statement(tokens: &Vec<ArgToken>) -> (outcome: Result<String, MacroError>)
    ensures
        synthesizes_to(StatementVerb::Insert, tokens.deep_view(), text_outcome(outcome)),
{
    let args = classify(tokens);
    let outcome = synthesize(StatementVerb::Insert, &args);
    proof {
        assert(read_from(tokens.deep_view(), args.deep_view()));
    }
    outcome
}

/// The SELECT statement for the tokens of `table, "col", ..., filter`.
pub fn select_statement(tokens: &Vec<ArgToken>) -> (outcome: Result<String, MacroError>)
    ensures
        synthesizes_to(StatementVerb::Select, tokens.deep_view(), text_outcome(outcome)),
{
    let args = classify(tokens);
    let outcome = synthesize(StatementVerb::Select, &args);
    proof {
        assert(read_from(tokens.deep_view(), args.deep_view()));
    }
    outcome
}

/// The UPDATE statement for the tokens of `table, "col", ..., filter`.
pub fn update_statement(tokens: &Vec<ArgToken>) -> (outcome: Result<String, MacroError>)
    ensures
        synthesizes_to(StatementVerb::Update, tokens.deep_view(), text_outcome(outcome)),
{
    let args = classify(tokens);
    let outcome = synthesize(StatementVerb::Update, &args);
    proof {
        assert(read_from(tokens.deep_view(), args.deep_view()));
    }
    outcome
}

/// The DELETE statement for the tokens of `table, filter`.
pub fn delete_statement(tokens: &Vec<ArgToken>) -> (outcome: Result<String, MacroError>)
    ensures
        synthesizes_to(StatementVerb::Delete, tokens.deep_view(), text_outcome(outcome)),
{
    let args = classify(tokens);
    let outcome = synthesize(StatementVerb::Delete, &args);
    proof {
        assert(read_from(tokens.deep_view(), args.deep_view()));
    }
    outcome
}

} // verus!
