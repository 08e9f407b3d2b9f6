//! The operations of a page's content stream.

use vstd::prelude::*;

verus! {

/// An operand of a content-stream operation, as far as text extraction reads it.
#[derive(Debug)]
pub enum Operand {
    /// A name, such as that of a font resource.
    Name(Vec<u8>),
    /// A string, in the bytes of the selected font's encoding.
    Text(Vec<u8>),
    /// An array of operands.
    Array(Vec<Operand>),
    /// An integer.
    Integer(i64),
    /// Any other object.
    Other,
}

/// The mathematical value of an [`Operand`].
pub enum OperandModel {
    Name(Seq<u8>),
    Text(Seq<u8>),
    Array(Seq<OperandModel>),
    Integer(int),
    Other,
}

impl Operand {
    /// The mathematical value of this operand.
    pub open spec fn model(self) -> OperandModel
        decreases self,
    {
        match self {
            Operand::Name(name) => OperandModel::Name(name@),
            Operand::Text(bytes) => OperandModel::Text(bytes@),
            Operand::Array(items) => OperandModel::Array(Self::models(items@)),
            Operand::Integer(i) => OperandModel::Integer(i as int),
            Operand::Other => OperandModel::Other,
        }
    }

    /// The mathematical values of a sequence of operands.
    pub open spec fn models(items: Seq<Operand>) -> Seq<OperandModel>
        decreases items,
    {
        if items.len() == 0 {
            seq![]
        } else {
            Self::models(items.drop_last()).push(items.last().model())
        }
    }

    /// The models of a sequence are the models of its items, one for one.
    pub proof fn lemma_models(items: Seq<Operand>)
        ensures
            Self::models(items).len() == items.len(),
            forall|i: int| 0 <= i < items.len() ==> Self::models(items)[i] == #[trigger] items[i].model(),
        decreases items.len(),
    {
        if items.len() > 0 {
            let front = items.drop_last();
            Self::lemma_models(front);
            assert forall|i: int| 0 <= i < items.len() implies Self::models(items)[i]
                == #[trigger] items[i].model() by {
                if i < front.len() {
                    assert(front[i] == items[i]);
                }
            }
        }
    }
}

/// An operator of a content stream with the operands that stood before it.
#[derive(Debug)]
pub struct Operation {
    pub operator: String,
    pub operands: Vec<Operand>,
}

/// The mathematical value of an [`Operation`].
pub struct OperationModel {
    pub operator: Seq<char>,
    pub operands: Seq<OperandModel>,
}

impl Operation {
    /// An operation from its operator and operands.
    pub fn new(operator: &str, operands: Vec<Operand>) -> (operation: Operation)
        ensures
            operation.operator@ == operator@,
            operation.operands == operands,
    {
        Operation { operator: operator.to_owned(), operands }
    }

    /// The mathematical value of this operation.
    pub open spec fn model(self) -> OperationModel {
        OperationModel { operator: self.operator@, operands: Operand::models(self.operands@) }
    }

    /// The mathematical values of a sequence of operations.
    pub open spec fn models(operations: Seq<Operation>) -> Seq<OperationModel> {
        Seq::new(operations.len(), |i: int| operations[i].model())
    }
}

#[verifier::external_type_specification]
#[verifier::external_body]
pub struct ExLopdfError(lopdf::Error);

#[verifier::external_type_specification]
#[verifier::external_body]
pub struct ExLopdfObject(lopdf::Object);

/// The operations that `lopdf` reads from the bytes of a content stream, or
/// `None` where it reads none.
pub uninterp spec fn content_operations(data: Seq<u8>) -> Option<Seq<OperationModel>>;

/// The text that `lopdf` decodes from the bytes of a string operand under the
/// encoding of that name, or under its default where no encoding is given.
pub uninterp spec fn decoded_text(encoding: Option<Seq<char>>, bytes: Seq<u8>) -> Seq<char>;

/// `lopdf::content::Content::decode`: the operations of a content stream,
/// each with its operands as [`Operand`]s. What it returns is a function of
/// the bytes alone, to which [`content_operations`] gives a name. Arrays
/// within arrays are read by recursion, there as in this library, so how
/// deep they may nest is a matter of the stack.
#[verifier::external_body]
pub(crate) fn parse_content(data: &[u8]) -> (parsed: Result<Vec<Operation>, lopdf::Error>)
    ensures
        match parsed {
            Ok(operations) => content_operations(data@) == Some(Operation::models(operations@)),
            Err(_) => content_operations(data@) is None,
        },
{
    let content = lopdf::content::Content::decode(data)?;
    Ok(content.operations.into_iter().map(|operation| Operation {
        operator: operation.operator,
        operands: operands_of(&operation.operands),
    }).collect())
}

/// Turns the objects that `lopdf` read as operands into [`Operand`]s, one
/// for one and in order, arrays item by item. [`parse_content`] converts
/// with it.
#[verifier::external_body]
fn operands_of(objects: &[lopdf::Object]) -> Vec<Operand> {
    objects.iter().map(|object| match object {
        lopdf::Object::Name(name) => Operand::Name(name.clone()),
        lopdf::Object::String(bytes, _) => Operand::Text(bytes.clone()),
        lopdf::Object::Array(items) => Operand::Array(operands_of(items)),
        lopdf::Object::Integer(value) => Operand::Integer(*value),
        _ => Operand::Other,
    }).collect()
}

/// The view of an optional string slice.
pub open spec fn name_view(name: Option<&str>) -> Option<Seq<char>> {
    match name {
        Some(n) => Some(n@),
        None => None,
    }
}

/// `lopdf::Document::decode_text`: the text of a string operand. What it
/// returns is a function of the encoding's name and the bytes alone, to which
/// [`decoded_text`] gives a name.
#[verifier::external_body]
pub(crate) fn decode_text(encoding: Option<&str>, bytes: &[u8]) -> (text: String)
    ensures
        text@ == decoded_text(name_view(encoding), bytes@),
{
    lopdf::Document::decode_text(encoding, bytes)
}

} // verus!
