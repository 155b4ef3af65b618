//! Redaction: keep a short visible prefix of a text value and mask the rest.

use crate::transformer::Transformer;
use crate::types::{Column, ColumnView};
use vstd::prelude::*;
use vstd::string::StrSliceExecFns;
use vstd::string::StringExecFns;

verus! {

/// The number of leading characters that stay visible.
pub const VISIBLE_PREFIX_LEN: usize = 3;

/// The number of mask characters that follow the visible prefix.
pub const MASK_WIDTH: usize = 10;

/// The character the mask is made of.
pub const MASK_CHAR: char = '*';

/// The mask that replaces everything behind the visible prefix.
pub open spec fn mask() -> Seq<char> {
    Seq::new(MASK_WIDTH as nat, |i: int| MASK_CHAR)
}

/// The redacted form of a text: texts of up to three characters stay as they
/// are, longer ones keep their first three characters, followed by the mask.
pub open spec fn redacted_text(text: Seq<char>) -> Seq<char> {
    if text.len() <= VISIBLE_PREFIX_LEN {
        text
    } else {
        text.subrange(0, VISIBLE_PREFIX_LEN as int) + mask()
    }
}

/// The redacted form of a value: text payloads are redacted, every other kind
/// of value stays as it is.
pub open spec fn redacted_column(column: ColumnView) -> ColumnView {
    match column {
        ColumnView::StringValue(name, value) => ColumnView::StringValue(name, redacted_text(value)),
        _ => column,
    }
}

/// The options of a [`RedactedTransformer`].
#[derive(Debug, PartialEq)]
pub struct RedactedTransformerOptions {
    /// The configured mask character.
    pub char: char,
}

impl Default for RedactedTransformerOptions {
    /// The options used where the configuration gives none: the mask
    /// character is `*`.
    fn default() -> (options: Self)
        ensures
            options.char == '*',
    {
        RedactedTransformerOptions { char: '*' }
    }
}

/// Redacts the text values of one column.
///
/// The three names say which column the instance is meant for; they do not
/// enter into the result of [`Transformer::transform`]. The options stay with
/// their owner, which must outlive the transformer.
pub struct RedactedTransformer<'a> {
    database_name: String,
    table_name: String,
    column_name: String,
    /// Kept as configured. The mask is made of `*` whatever the character in
    /// here is.
    #[allow(dead_code)]
    options: &'a RedactedTransformerOptions,
}

impl<'a> RedactedTransformer<'a> {
    /// The options the transformer was made with.
    pub closed spec fn spec_options(&self) -> RedactedTransformerOptions {
        *self.options
    }

    /// Binds a transformer to a column and to options owned by the caller.
    /// Any names are accepted, empty ones too.
    pub fn new(
        database_name: &str,
        table_name: &str,
        column_name: &str,
        options: &'a RedactedTransformerOptions,
    ) -> (transformer: Self)
        ensures
            transformer.spec_database_name() == database_name@,
            transformer.spec_table_name() == table_name@,
            transformer.spec_column_name() == column_name@,
            transformer.spec_options() == *options,
    {
        RedactedTransformer {
            database_name: database_name.to_owned(),
            table_name: table_name.to_owned(),
            column_name: column_name.to_owned(),
            options,
        }
    }
}

impl<'a> Default for RedactedTransformer<'a> {
    /// A transformer bound to no column: the three names are empty and the
    /// mask character is `*`.
    fn default() -> (transformer: Self)
        ensures
            transformer.spec_database_name() == Seq::<char>::empty(),
            transformer.spec_table_name() == Seq::<char>::empty(),
            transformer.spec_column_name() == Seq::<char>::empty(),
            transformer.spec_options().char == '*',
    {
        RedactedTransformer {
            database_name: String::default(),
            table_name: String::default(),
            column_name: String::default(),
            options: &RedactedTransformerOptions { char: '*' },
        }
    }
}

impl<'a> Transformer for RedactedTransformer<'a> {
    open spec fn spec_id(&self) -> Seq<char> {
        "redacted"@
    }

    closed spec fn spec_database_name(&self) -> Seq<char> {
        self.database_name@
    }

    closed spec fn spec_table_name(&self) -> Seq<char> {
        self.table_name@
    }

    closed spec fn spec_column_name(&self) -> Seq<char> {
        self.column_name@
    }

    open spec fn spec_transform(&self, column: ColumnView) -> ColumnView {
        redacted_column(column)
    }

    proof fn lemma_id_is_constant(&self, other: &Self) {
    }

    /// Always `"redacted"`.
    fn id(&self) -> (id: &str)
        ensures
            id@ == "redacted"@,
            id@.len() == 8,
    {
        proof {
            reveal_strlit("redacted");
        }
        "redacted"
    }

    fn description(&self) -> (description: &str)
        ensures
            description@
                == "Obfuscate your sensitive data (string only). [4242 4242 4242 4242]->[4242***************]"@,
    {
        "Obfuscate your sensitive data (string only). [4242 4242 4242 4242]->[4242***************]"
    }

    fn database_name(&self) -> (name: &str) {
        self.database_name.as_str()
    }

    fn table_name(&self) -> (name: &str) {
        self.table_name.as_str()
    }

    fn column_name(&self) -> (name: &str) {
        self.column_name.as_str()
    }

    /// Redacts a text value and hands every other value back.
    ///
    /// The mask is always made of `*`: the configured mask character plays
    /// no part in the result.
    fn transform(&self, column: Column) -> (transformed: Column)
        ensures
            transformed@ == redacted_column(column@),
            !(column@ is StringValue) ==> transformed == column,
            column@ matches ColumnView::StringValue(_, value) ==> (value.len() <= 3
                ==> transformed == column),
            column@ matches ColumnView::StringValue(name, value) ==> (value.len() > 3 ==> {
                &&& transformed@ matches ColumnView::StringValue(new_name, new_value)
                &&& new_name == name
                &&& new_value.len() == 13
                &&& new_value.subrange(0, 3) == value.subrange(0, 3)
                &&& forall|i: int| 3 <= i < 13 ==> new_value[i] == '*'
            }),
    {
        match column {
            Column::StringValue(column_name, value) => {
                let new_value = if value.as_str().unicode_len() > VISIBLE_PREFIX_LEN {
                    let mut masked = String::from_str(
                        value.as_str().substring_char(0, VISIBLE_PREFIX_LEN),
                    );
                    masked.append("**********");
                    proof {
                        reveal_strlit("**********");
                        assert("**********"@ =~= mask());
                    }
                    masked
                } else {
                    value
                };
                Column::StringValue(column_name, new_value)
            },
            column => column,
        }
    }
}

/// A value that is not a text is its own redacted form.
pub proof fn lemma_other_kinds_unchanged(column: ColumnView)
    requires
        !(column is StringValue),
    ensures
        redacted_column(column) == column,
{
}

/// A text of up to three characters is its own redacted form.
pub proof fn lemma_short_text_unchanged(text: Seq<char>)
    requires
        text.len() <= 3,
    ensures
        redacted_text(text) == text,
{
}

/// The redacted form of a text of more than three characters has exactly
/// thirteen characters: the first three of the text, then ten times `*`.
pub proof fn lemma_long_text_masked(text: Seq<char>)
    requires
        text.len() > 3,
    ensures
        redacted_text(text).len() == 13,
        redacted_text(text).subrange(0, 3) == text.subrange(0, 3),
        forall|i: int| 0 <= i < 3 ==> redacted_text(text)[i] == text[i],
        forall|i: int| 3 <= i < 13 ==> redacted_text(text)[i] == '*',
{
}

/// Redaction keeps the kind of a value and the name of its column.
pub proof fn lemma_name_and_kind_preserved(column: ColumnView)
    ensures
        redacted_column(column).name() == column.name(),
        redacted_column(column) is StringValue <==> column is StringValue,
        redacted_column(column) is NumberValue <==> column is NumberValue,
        redacted_column(column) is FloatNumberValue <==> column is FloatNumberValue,
        redacted_column(column) is CharValue <==> column is CharValue,
        redacted_column(column) is BooleanValue <==> column is BooleanValue,
        redacted_column(column) is Null <==> column is Null,
{
}

/// The texts that redaction leaves as they are: those of up to three
/// characters, and those of thirteen characters whose last ten are all `*`.
/// Every other text is changed.
pub proof fn lemma_fixed_points(text: Seq<char>)
    ensures
        redacted_text(text) == text <==> {
            ||| text.len() <= 3
            ||| (text.len() == 13 && forall|i: int| 3 <= i < 13 ==> text[i] == '*')
        },
{
    if text.len() > 3 {
        lemma_long_text_masked(text);
        if text.len() == 13 && (forall|i: int| 3 <= i < 13 ==> text[i] == '*') {
            assert(redacted_text(text) =~= text);
        }
    }
}

/// Redacting twice gives what redacting once gives: a redacted text is a
/// fixed point, whatever the text it came from.
pub proof fn lemma_redaction_idempotent(column: ColumnView)
    ensures
        redacted_column(redacted_column(column)) == redacted_column(column),
{
    if let ColumnView::StringValue(_, text) = column {
        if text.len() > 3 {
            lemma_long_text_masked(text);
            lemma_fixed_points(redacted_text(text));
        }
    }
}

/// The result of a transformer depends on the value alone: neither the
/// column it is bound to nor the configured mask character changes it.
pub proof fn lemma_result_independent_of_instance(
    first: RedactedTransformer,
    second: RedactedTransformer,
    column: ColumnView,
)
    ensures
        first.spec_transform(column) == second.spec_transform(column),
{
}

} // verus!
