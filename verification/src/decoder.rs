//! Reconstructs the text of a page from the operations of its content stream.

use vstd::prelude::*;
use crate::content::{
    content_operations, decode_text, decoded_text, name_view, parse_content, Operand,
    OperandModel, Operation, OperationModel,
};
use crate::fonts::FontEncodingTable;
use crate::text::{ends_in_newline, ends_with_newline, str_eq};

verus! {

/// A number among the operands of a text-showing operator that lies below
/// this is read as the gap between two words.
pub const WORD_GAP: i64 = -100;

/// Why the text of a document could not be extracted.
#[derive(Debug, Clone, Copy, PartialEq, Eq, Structural)]
pub enum DecodeError {
    /// The document cannot be read, or one of its pages has no content stream
    /// that can be read.
    Unreadable,
    /// The content stream of a page does not follow the grammar of content streams.
    Grammar,
    /// A `Tf` operator stands without the name of a font before it.
    MissingOperand,
}

/// The text that one operand of a text-showing operator adds to a page.
pub open spec fn operand_text(encoding: Option<Seq<char>>, operand: OperandModel) -> Seq<char>
    decreases operand,
{
    match operand {
        OperandModel::Text(bytes) => decoded_text(encoding, bytes),
        OperandModel::Array(items) => operands_text(encoding, items) + seq![' '],
        OperandModel::Integer(value) => if value < WORD_GAP {
            seq![' ']
        } else {
            seq![]
        },
        _ => seq![],
    }
}

/// The text that the operands of a text-showing operator add to a page: that
/// of each operand in turn.
pub open spec fn operands_text(encoding: Option<Seq<char>>, operands: Seq<OperandModel>) -> Seq<char>
    decreases operands,
{
    if operands.len() == 0 {
        seq![]
    } else {
        operands_text(encoding, operands.drop_last()) + operand_text(encoding, operands.last())
    }
}

/// Appends to `text` what `operands` show under `encoding`: each string
/// decoded, a space after each array and for each number below [`WORD_GAP`].
pub fn collect_text(text: &mut String, encoding: Option<&str>, operands: &[Operand])
    ensures
        final(text)@ == old(text)@ + operands_text(name_view(encoding), Operand::models(operands@)),
    decreases operands@,
{
    let ghost enc = name_view(encoding);
    let mut i: usize = 0;
    assert(operands@.take(0) =~= Seq::empty());
    while i < operands.len()
        invariant
            i <= operands.len(),
            enc == name_view(encoding),
            text@ == old(text)@ + operands_text(enc, Operand::models(operands@.take(i as int))),
        decreases operands.len() - i,
    {
        let ghost before = text@;
        let ghost shown = Operand::models(operands@.take(i as int));
        let ghost operand = operands@[i as int].model();
        proof {
            let next = operands@.take(i + 1);
            assert(next.drop_last() =~= operands@.take(i as int));
            assert(next.last() == operands@[i as int]);
            assert(Operand::models(next).drop_last() =~= shown);
            assert(operands_text(enc, Operand::models(next)) == operands_text(enc, shown)
                + operand_text(enc, operand));
        }
        match &operands[i] {
            Operand::Text(bytes) => {
                let decoded = decode_text(encoding, bytes.as_slice());
                text.append(decoded.as_str());
            },
            Operand::Array(items) => {
                collect_text(text, encoding, items.as_slice());
                proof {
                    reveal_strlit(" ");
                }
                text.append(" ");
                assert(" "@ =~= seq![' ']);
            },
            Operand::Integer(value) => {
                if *value < WORD_GAP {
                    proof {
                        reveal_strlit(" ");
                    }
                    text.append(" ");
                    assert(" "@ =~= seq![' ']);
                }
            },
            _ => {},
        }
        assert(text@ =~= before + operand_text(enc, operand));
        i += 1;
    }
    assert(operands@.take(i as int) =~= operands@);
}

/// What a page has shown so far, and under which encoding it shows next.
pub struct PageState {
    pub text: Seq<char>,
    pub encoding: Option<Seq<char>>,
}

/// The state in which the interpretation of a page starts: no text and no
/// encoding selected.
pub open spec fn initial_state() -> PageState {
    PageState { text: seq![], encoding: None }
}

/// The effect of one operation on the state of a page.
///
/// `Tf` selects the encoding of the font that its first operand names, and
/// changes nothing for a font that the page does not have; without a name as
/// first operand it is an error. `Tj` and `TJ` show their operands. `ET` ends
/// the line unless the text ends in a line feed already. Every other operator
/// is passed over.
pub open spec fn apply_operation(
    fonts: Map<Seq<u8>, Seq<char>>,
    state: PageState,
    operation: OperationModel,
) -> Result<PageState, DecodeError> {
    if operation.operator == "Tf"@ {
        if operation.operands.len() > 0 && operation.operands[0] is Name {
            let name = operation.operands[0]->Name_0;
            if fonts.contains_key(name) {
                Ok(PageState { text: state.text, encoding: Some(fonts[name]) })
            } else {
                Ok(state)
            }
        } else {
            Err(DecodeError::MissingOperand)
        }
    } else if operation.operator == "Tj"@ || operation.operator == "TJ"@ {
        Ok(
            PageState {
                text: state.text + operands_text(state.encoding, operation.operands),
                encoding: state.encoding,
            },
        )
    } else if operation.operator == "ET"@ {
        if ends_in_newline(state.text) {
            Ok(state)
        } else {
            Ok(PageState { text: state.text.push('\n'), encoding: state.encoding })
        }
    } else {
        Ok(state)
    }
}

/// The effect of a sequence of operations on the state of a page: that of
/// each in turn, up to the first error.
pub open spec fn apply_operations(
    fonts: Map<Seq<u8>, Seq<char>>,
    state: PageState,
    operations: Seq<OperationModel>,
) -> Result<PageState, DecodeError>
    decreases operations.len(),
{
    if operations.len() == 0 {
        Ok(state)
    } else {
        match apply_operations(fonts, state, operations.drop_last()) {
            Ok(before) => apply_operation(fonts, before, operations.last()),
            Err(error) => Err(error),
        }
    }
}

/// The text of a page with these fonts and operations.
pub open spec fn page_text(fonts: Map<Seq<u8>, Seq<char>>, operations: Seq<OperationModel>) -> Result<
    Seq<char>,
    DecodeError,
> {
    match apply_operations(fonts, initial_state(), operations) {
        Ok(state) => Ok(state.text),
        Err(error) => Err(error),
    }
}

/// Whether an extracted text, or the error in its place, is what the model gives.
pub open spec fn text_matches(found: Result<String, DecodeError>, expected: Result<Seq<char>, DecodeError>) -> bool {
    match found {
        Ok(text) => expected == Ok::<Seq<char>, DecodeError>(text@),
        Err(error) => expected == Err::<Seq<char>, DecodeError>(error),
    }
}

/// The text that a page shows: the operations interpreted in order, starting
/// with no encoding selected.
pub fn interpret_operations(fonts: &FontEncodingTable, operations: &[Operation]) -> (text: Result<
    String,
    DecodeError,
>)
    ensures
        text_matches(text, page_text(fonts@, Operation::models(operations@))),
{
    let ghost ops = Operation::models(operations@);
    let mut text = String::new();
    let mut encoding: Option<&str> = None;
    let mut i: usize = 0;
    assert(ops.take(0) =~= Seq::empty());
    while i < operations.len()
        invariant
            i <= operations.len(),
            ops == Operation::models(operations@),
            apply_operations(fonts@, initial_state(), ops.take(i as int)) == Ok::<PageState, DecodeError>(
                PageState { text: text@, encoding: name_view(encoding) },
            ),
        decreases operations.len() - i,
    {
        let operation = &operations[i];
        let ghost state = PageState { text: text@, encoding: name_view(encoding) };
        proof {
            let next = ops.take(i + 1);
            assert(next.drop_last() =~= ops.take(i as int));
            assert(next.last() == operation.model());
            assert(apply_operations(fonts@, initial_state(), next) == apply_operation(
                fonts@,
                state,
                operation.model(),
            ));
            Operand::lemma_models(operation.operands@);
            lemma_prefix_error(fonts@, initial_state(), ops, i + 1);
            reveal_strlit("Tf");
            reveal_strlit("Tj");
            reveal_strlit("TJ");
            reveal_strlit("ET");
        }
        let operator = operation.operator.as_str();
        if str_eq(operator, "Tf") {
            if operation.operands.len() == 0 {
                return Err(DecodeError::MissingOperand);
            }
            assert(operation.model().operands[0] == operation.operands@[0].model());
            match &operation.operands[0] {
                Operand::Name(name) => {
                    match fonts.get(name.as_slice()) {
                        Some(found) => {
                            encoding = Some(found);
                        },
                        None => {},
                    }
                },
                _ => {
                    return Err(DecodeError::MissingOperand);
                },
            }
        } else if str_eq(operator, "Tj") || str_eq(operator, "TJ") {
            collect_text(&mut text, encoding, operation.operands.as_slice());
        } else if str_eq(operator, "ET") {
            if !ends_with_newline(text.as_str()) {
                proof {
                    reveal_strlit("\n");
                }
                text.append("\n");
                assert(text@ =~= state.text.push('\n'));
            }
        }
        i += 1;
    }
    assert(ops.take(i as int) =~= ops);
    Ok(text)
}

/// Once a prefix of the operations fails, the whole sequence fails in the same way.
pub proof fn lemma_prefix_error(
    fonts: Map<Seq<u8>, Seq<char>>,
    state: PageState,
    operations: Seq<OperationModel>,
    n: int,
)
    requires
        0 <= n <= operations.len(),
    ensures
        apply_operations(fonts, state, operations.take(n)) is Err ==> apply_operations(
            fonts,
            state,
            operations,
        ) == apply_operations(fonts, state, operations.take(n)),
    decreases operations.len() - n,
{
    if n < operations.len() {
        let longer = operations.take(n + 1);
        assert(longer.drop_last() =~= operations.take(n));
        lemma_prefix_error(fonts, state, operations, n + 1);
    } else {
        assert(operations.take(n) =~= operations);
    }
}

/// The text of a page whose content stream holds the bytes `content`: that
/// of the operations read from them, and an error where none can be read.
pub open spec fn content_text(fonts: Map<Seq<u8>, Seq<char>>, content: Seq<u8>) -> Result<
    Seq<char>,
    DecodeError,
> {
    match content_operations(content) {
        Some(operations) => page_text(fonts, operations),
        None => Err(DecodeError::Grammar),
    }
}

/// The text of one page, from its fonts and the bytes of its content stream.
pub fn decode_operation(fonts: &FontEncodingTable, content_data: &[u8]) -> (text: Result<
    String,
    DecodeError,
>)
    ensures
        text_matches(text, content_text(fonts@, content_data@)),
{
    match parse_content(content_data) {
        Ok(operations) => interpret_operations(fonts, operations.as_slice()),
        Err(_) => Err(DecodeError::Grammar),
    }
}

/// What a stored document holds of one page: its number, the encodings of
/// its fonts, and the bytes of its content stream where it has one that can
/// be read.
#[derive(Debug)]
pub struct PageSource {
    pub number: u32,
    pub fonts: FontEncodingTable,
    pub content: Option<Vec<u8>>,
}

impl PageSource {
    /// The text of this page.
    pub open spec fn text(self) -> Result<Seq<char>, DecodeError> {
        match self.content {
            Some(content) => content_text(self.fonts@, content@),
            None => Err(DecodeError::Unreadable),
        }
    }
}

/// The texts of the pages of a document with their numbers, in the order of
/// the pages; the error of the first page that has one, in place of them all.
pub open spec fn document_text(pages: Seq<PageSource>) -> Result<Seq<(u32, Seq<char>)>, DecodeError>
    decreases pages.len(),
{
    if pages.len() == 0 {
        Ok(seq![])
    } else {
        match document_text(pages.drop_last()) {
            Ok(texts) => match pages.last().text() {
                Ok(text) => Ok(texts.push((pages.last().number, text))),
                Err(error) => Err(error),
            },
            Err(error) => Err(error),
        }
    }
}

/// The numbered texts of a document as mathematical values.
pub open spec fn texts_view(texts: Seq<(u32, String)>) -> Seq<(u32, Seq<char>)> {
    Seq::new(texts.len(), |i: int| (texts[i].0, texts[i].1@))
}

/// Once the pages up to some page fail, the whole document fails in the same way.
pub proof fn lemma_document_error(pages: Seq<PageSource>, n: int)
    requires
        0 <= n <= pages.len(),
    ensures
        document_text(pages.take(n)) is Err ==> document_text(pages) == document_text(pages.take(n)),
    decreases pages.len() - n,
{
    if n < pages.len() {
        let longer = pages.take(n + 1);
        assert(longer.drop_last() =~= pages.take(n));
        lemma_document_error(pages, n + 1);
    } else {
        assert(pages.take(n) =~= pages);
    }
}

/// The text of every page of a document, each with its page number, in the
/// order of the pages. The document decodes as a whole or not at all.
pub fn convert_pdf_to_text(pages: &[PageSource]) -> (texts: Result<Vec<(u32, String)>, DecodeError>)
    ensures
        match texts {
            Ok(found) => document_text(pages@) == Ok::<Seq<(u32, Seq<char>)>, DecodeError>(
                texts_view(found@),
            ),
            Err(error) => document_text(pages@) == Err::<Seq<(u32, Seq<char>)>, DecodeError>(error),
        },
{
    let mut texts: Vec<(u32, String)> = Vec::new();
    let mut i: usize = 0;
    assert(pages@.take(0) =~= Seq::empty());
    assert(texts_view(texts@) =~= Seq::empty());
    while i < pages.len()
        invariant
            i <= pages.len(),
            document_text(pages@.take(i as int)) == Ok::<Seq<(u32, Seq<char>)>, DecodeError>(
                texts_view(texts@),
            ),
        decreases pages.len() - i,
    {
        let page = &pages[i];
        let ghost before = texts_view(texts@);
        proof {
            let next = pages@.take(i + 1);
            assert(next.drop_last() =~= pages@.take(i as int));
            assert(next.last() == pages@[i as int]);
            lemma_document_error(pages@, i + 1);
        }
        let text = match &page.content {
            Some(content) => decode_operation(&page.fonts, content.as_slice()),
            None => Err(DecodeError::Unreadable),
        };
        match text {
            Ok(text) => {
                let ghost shown = text@;
                texts.push((page.number, text));
                assert(texts_view(texts@) =~= before.push((page.number, shown)));
            },
            Err(error) => {
                return Err(error);
            },
        }
        i += 1;
    }
    assert(pages@.take(i as int) =~= pages@);
    Ok(texts)
}

/// The texts of a stored document, of which `pages` holds the pages where
/// it could be read: an error where it could not, and else the texts of the
/// pages.
pub open spec fn stored_text(pages: Option<Seq<PageSource>>) -> Result<
    Seq<(u32, Seq<char>)>,
    DecodeError,
> {
    match pages {
        Some(pages) => document_text(pages),
        None => Err(DecodeError::Unreadable),
    }
}

/// The pages of an optional slice as a sequence.
pub open spec fn pages_view(pages: Option<&[PageSource]>) -> Option<Seq<PageSource>> {
    match pages {
        Some(pages) => Some(pages@),
        None => None,
    }
}

/// The text of every page of a stored document, each with its page number.
/// `pages` holds the pages of the document, and `None` where the document
/// cannot be read, which is an error like that of a page.
pub fn decode_document(pages: Option<&[PageSource]>) -> (texts: Result<
    Vec<(u32, String)>,
    DecodeError,
>)
    ensures
        match texts {
            Ok(found) => stored_text(pages_view(pages)) == Ok::<Seq<(u32, Seq<char>)>, DecodeError>(
                texts_view(found@),
            ),
            Err(error) => stored_text(pages_view(pages)) == Err::<
                Seq<(u32, Seq<char>)>,
                DecodeError,
            >(error),
        },
{
    match pages {
        Some(pages) => convert_pdf_to_text(pages),
        None => Err(DecodeError::Unreadable),
    }
}

} // verus!
