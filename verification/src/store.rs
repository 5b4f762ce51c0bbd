//! The statements that the registry's database is asked to run.
//!
//! A statement is an SQL text and the values of its placeholders, in order.
//! Every saving statement inserts a row or, where the key is already there,
//! overwrites the other columns of that row. The values are listed in the
//! order of the columns that the text names, so a row can be read off them.
use vstd::prelude::*;

verus! {

/// The value of a placeholder.
pub enum Value {
    Text(String),
    U8(u8),
    U32(u32),
    /// The bits of a single-precision number.
    F32Bits(u32),
}

/// What a [`Value`] holds.
pub enum ValueView {
    Text(Seq<char>),
    U8(u8),
    U32(u32),
    F32Bits(u32),
}

impl View for Value {
    type V = ValueView;

    open spec fn view(&self) -> ValueView {
        match self {
            Value::Text(text) => ValueView::Text(text@),
            Value::U8(n) => ValueView::U8(*n),
            Value::U32(n) => ValueView::U32(*n),
            Value::F32Bits(bits) => ValueView::F32Bits(*bits),
        }
    }
}

impl DeepView for Value {
    type V = ValueView;

    open spec fn deep_view(&self) -> ValueView {
        self@
    }
}

impl Clone for Value {
    fn clone(&self) -> (copy: Self)
        ensures
            copy@ == self@,
    {
        match self {
            Value::Text(text) => Value::Text(text.clone()),
            Value::U8(n) => Value::U8(*n),
            Value::U32(n) => Value::U32(*n),
            Value::F32Bits(bits) => Value::F32Bits(*bits),
        }
    }
}

/// An SQL text and the values of its placeholders.
pub struct Statement {
    pub sql: &'static str,
    pub binds: Vec<Value>,
}

/// What a [`Statement`] holds.
#[verifier::ext_equal]
pub struct StatementView {
    pub sql: Seq<char>,
    pub binds: Seq<ValueView>,
}

impl View for Statement {
    type V = StatementView;

    open spec fn view(&self) -> StatementView {
        StatementView { sql: self.sql@, binds: self.binds.deep_view() }
    }
}

impl DeepView for Statement {
    type V = StatementView;

    open spec fn deep_view(&self) -> StatementView {
        self@
    }
}

impl Clone for Statement {
    fn clone(&self) -> (copy: Self)
        ensures
            copy@ == self@,
    {
        let binds = self.binds.clone();
        assert(binds.deep_view() =~= self.binds.deep_view());
        Statement { sql: self.sql, binds }
    }
}

/// Why a record could not be stored or read.
#[derive(Debug)]
pub enum StoreError {
    /// A list could not be written as JSON; holds the message of that error.
    Protocol(String),
    /// The database refused the statement; holds the message of that error.
    Database(String),
    /// A column of a row could not be read; holds the column and the message of that
    /// error.
    ColumnDecode { index: String, source: String },
}

/// What a [`StoreError`] holds.
pub enum StoreErrorView {
    Protocol(Seq<char>),
    Database(Seq<char>),
    ColumnDecode { index: Seq<char>, source: Seq<char> },
}

impl View for StoreError {
    type V = StoreErrorView;

    open spec fn view(&self) -> StoreErrorView {
        match self {
            StoreError::Protocol(message) => StoreErrorView::Protocol(message@),
            StoreError::Database(message) => StoreErrorView::Database(message@),
            StoreError::ColumnDecode { index, source } => StoreErrorView::ColumnDecode {
                index: index@,
                source: source@,
            },
        }
    }
}

impl DeepView for StoreError {
    type V = StoreErrorView;

    open spec fn deep_view(&self) -> StoreErrorView {
        self@
    }
}

impl Clone for StoreError {
    fn clone(&self) -> (copy: Self)
        ensures
            copy@ == self@,
    {
        match self {
            StoreError::Protocol(message) => StoreError::Protocol(message.clone()),
            StoreError::Database(message) => StoreError::Database(message.clone()),
            StoreError::ColumnDecode { index, source } => StoreError::ColumnDecode {
                index: index.clone(),
                source: source.clone(),
            },
        }
    }
}

impl StoreErrorView {
    /// The text of an error.
    pub open spec fn text(self) -> Seq<char> {
        match self {
            StoreErrorView::Protocol(message) => "encountered unexpected or invalid data: "@
                + message,
            StoreErrorView::Database(message) => message,
            StoreErrorView::ColumnDecode { index, source } =>
                "error occurred while decoding column "@ + index + ": "@ + source,
        }
    }
}

/// The text of `sqlx::Error::Protocol`, as its `Display` writes it: a fixed
/// beginning, then the message.
#[verifier::external_body]
fn protocol_error_text(message: String) -> (text: String)
    ensures
        text@ == "encountered unexpected or invalid data: "@ + message@,
{
    sqlx::Error::Protocol(message).to_string()
}

/// The text of `sqlx::Error::ColumnDecode`, as its `Display` writes it: a fixed
/// beginning, the column, and then the message of the error in it.
#[verifier::external_body]
fn column_error_text(index: String, source: String) -> (text: String)
    ensures
        text@ == "error occurred while decoding column "@ + index@ + ": "@ + source@,
{
    sqlx::Error::ColumnDecode { index, source: source.into() }.to_string()
}

impl StoreError {
    /// The text of an error.
    pub fn text(&self) -> (text: String)
        ensures
            text@ == self@.text(),
            match self {
                StoreError::Protocol(message) => text@ == "encountered unexpected or invalid data: "@
                    + message@,
                StoreError::Database(message) => text@ == message@,
                StoreError::ColumnDecode { index, source } => text@
                    == "error occurred while decoding column "@ + index@ + ": "@ + source@,
            },
    {
        match self {
            StoreError::Protocol(message) => protocol_error_text(message.clone()),
            StoreError::Database(message) => message.clone(),
            StoreError::ColumnDecode { index, source } => column_error_text(
                index.clone(),
                source.clone(),
            ),
        }
    }
}

/// What the database gave, a list or an error, holds.
pub open spec fn found_result<T: DeepView>(found: Result<Vec<T>, StoreError>) -> Result<
    Seq<T::V>,
    StoreErrorView,
> {
    match found {
        Ok(items) => Ok(items.deep_view()),
        Err(error) => Err(error@),
    }
}

/// What a statement, or the error in its place, holds.
pub open spec fn statement_result(result: Result<Statement, StoreError>) -> Result<
    StatementView,
    StoreErrorView,
> {
    match result {
        Ok(statement) => Ok(statement@),
        Err(error) => Err(error@),
    }
}

/// The view of a value holds the value, and tells the kinds of values apart.
pub proof fn value_view_is_faithful(value: Value)
    ensures
        match value {
            Value::Text(text) => value@ == ValueView::Text(text@),
            Value::U8(n) => value@ == ValueView::U8(n),
            Value::U32(n) => value@ == ValueView::U32(n),
            Value::F32Bits(bits) => value@ == ValueView::F32Bits(bits),
        },
        value.deep_view() == value@,
{
}

/// The view of a statement holds its text and the values of its placeholders, in
/// order.
pub proof fn statement_view_is_faithful(statement: Statement)
    ensures
        statement@.sql == statement.sql@,
        statement@.binds.len() == statement.binds@.len(),
        forall|i: int|
            0 <= i < statement.binds@.len() ==> #[trigger] statement@.binds[i]
                == statement.binds@[i]@,
        statement.deep_view() == statement@,
{
}

/// The view of an error holds its messages, and its text says them all.
pub proof fn error_view_is_faithful(error: StoreError)
    ensures
        match error {
            StoreError::Protocol(message) => error@ == StoreErrorView::Protocol(message@)
                && error@.text() == "encountered unexpected or invalid data: "@ + message@,
            StoreError::Database(message) => error@ == StoreErrorView::Database(message@)
                && error@.text() == message@,
            StoreError::ColumnDecode { index, source } => error@ == (StoreErrorView::ColumnDecode {
                index: index@,
                source: source@,
            }) && error@.text() == "error occurred while decoding column "@ + index@ + ": "@
                + source@,
        },
        error.deep_view() == error@,
{
}

/// What was found, or made, is taken as it is: the items in their order, or the error.
pub proof fn outcomes_are_taken_as_they_are(
    found: Result<Vec<Value>, StoreError>,
    made: Result<Statement, StoreError>,
)
    ensures
        found matches Ok(items) ==> found_result(found) == Ok::<Seq<ValueView>, StoreErrorView>(
            items.deep_view(),
        ),
        found matches Err(error) ==> found_result(found) == Err::<Seq<ValueView>, StoreErrorView>(
            error@,
        ),
        made matches Ok(statement) ==> statement_result(made) == Ok::<
            StatementView,
            StoreErrorView,
        >(statement@),
        made matches Err(error) ==> statement_result(made) == Err::<StatementView, StoreErrorView>(
            error@,
        ),
{
}

} // verus!
