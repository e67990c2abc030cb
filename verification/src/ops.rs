//! The operators of content streams (graphics state, text and colour), and the writer that
//! collects the operations of a content stream.
use vstd::prelude::*;
use crate::pdf_object::{objs_view, push_item, ObjView, PdfObject};
use crate::resources::LayerId;

verus! {

/// An operator of a content stream.
pub trait OperationKeyType {
    /// The operator's text.
    spec fn key_spec(&self) -> Seq<char>;

    /// The operator as it stands in a content stream.
    fn key(&self) -> (r: &'static str)
        ensures
            r@ == self.key_spec(),
    ;
}

/// Graphics state and marked content operators.
#[derive(Debug, Clone, Copy, PartialEq, Eq, Structural)]
pub enum OperationKeys {
    /// Save Graphics State
    SaveGraphicsState,
    /// Restore Graphics State
    RestoreGraphicsState,
    /// Set Line Width
    SetLineWidth,
    /// Current Transformation Matrix
    CurrentTransformationMatrix,
    /// Render a xobject
    PaintXObject,
    BeginLayer,
    BeginMarkedContent,
    EndSection,
}

/// The operator text of each graphics key.
pub open spec fn operation_key_spec(k: OperationKeys) -> Seq<char> {
    match k {
        OperationKeys::SaveGraphicsState => "q"@,
        OperationKeys::RestoreGraphicsState => "Q"@,
        OperationKeys::SetLineWidth => "w"@,
        OperationKeys::CurrentTransformationMatrix => "cm"@,
        OperationKeys::PaintXObject => "Do"@,
        OperationKeys::BeginLayer => "BDC"@,
        OperationKeys::BeginMarkedContent => "BMC"@,
        OperationKeys::EndSection => "EMC"@,
    }
}

impl OperationKeyType for OperationKeys {
    open spec fn key_spec(&self) -> Seq<char> {
        operation_key_spec(*self)
    }

    /// The operator as it stands in a content stream.
    fn key(&self) -> (r: &'static str) {
        match self {
            OperationKeys::SaveGraphicsState => "q",
            OperationKeys::RestoreGraphicsState => "Q",
            OperationKeys::SetLineWidth => "w",
            OperationKeys::CurrentTransformationMatrix => "cm",
            OperationKeys::PaintXObject => "Do",
            OperationKeys::BeginLayer => "BDC",
            OperationKeys::BeginMarkedContent => "BMC",
            OperationKeys::EndSection => "EMC",
        }
    }
}

/// Text operators.
#[derive(Debug, Clone, Copy, PartialEq, Eq, Structural)]
pub enum TextOperations {
    /// Begin Text
    BeginText,
    /// Text Font
    TextFont,
    /// Text Position
    TextPosition,
    /// Character Space
    CharacterSpace,
    /// Word Space
    WordSpace,
    /// Text Rise
    TextRise,
    /// Text New Line
    TextNewLine,
    /// End Text
    EndText,
    /// Show Text
    ShowText,
}

/// The operator text of each text key.
pub open spec fn text_operation_spec(k: TextOperations) -> Seq<char> {
    match k {
        TextOperations::BeginText => "BT"@,
        TextOperations::TextFont => "Tf"@,
        TextOperations::TextPosition => "Td"@,
        TextOperations::CharacterSpace => "Tc"@,
        TextOperations::WordSpace => "Tw"@,
        TextOperations::TextRise => "Ts"@,
        TextOperations::TextNewLine => "T*"@,
        TextOperations::EndText => "ET"@,
        TextOperations::ShowText => "Tj"@,
    }
}

impl OperationKeyType for TextOperations {
    open spec fn key_spec(&self) -> Seq<char> {
        text_operation_spec(*self)
    }

    /// The operator as it stands in a content stream.
    fn key(&self) -> (r: &'static str) {
        match self {
            TextOperations::BeginText => "BT",
            TextOperations::TextFont => "Tf",
            TextOperations::TextPosition => "Td",
            TextOperations::CharacterSpace => "Tc",
            TextOperations::WordSpace => "Tw",
            TextOperations::TextRise => "Ts",
            TextOperations::TextNewLine => "T*",
            TextOperations::EndText => "ET",
            TextOperations::ShowText => "Tj",
        }
    }
}

/// Colour operators.
#[derive(Debug, Clone, Copy, PartialEq, Eq, Structural)]
pub enum ColorOperations {
    /// Set the fill colour in DeviceRGB: operands r, g, b.
    NonStrokingDeviceRgb,
    /// Set the stroke colour in DeviceRGB: operands r, g, b.
    StrokeDeviceRgb,
    /// Set the stroke colour in DeviceGray: operand gray, 0 black and 1 white.
    StrokeDeviceGray,
    /// Set the fill colour in DeviceGray: operand gray, 0 black and 1 white.
    NonStrokingDeviceGray,
    /// Set the stroke colour in DeviceCMYK: operands c, m, y, k.
    StrokingCMYK,
    /// Set the fill colour in DeviceCMYK: operands c, m, y, k.
    NonStrokingCMYK,
}

/// The operator text of each colour key.
pub open spec fn color_operation_spec(k: ColorOperations) -> Seq<char> {
    match k {
        ColorOperations::NonStrokingDeviceRgb => "rg"@,
        ColorOperations::StrokeDeviceRgb => "RG"@,
        ColorOperations::StrokeDeviceGray => "G"@,
        ColorOperations::NonStrokingDeviceGray => "g"@,
        ColorOperations::StrokingCMYK => "K"@,
        ColorOperations::NonStrokingCMYK => "k"@,
    }
}

impl OperationKeyType for ColorOperations {
    open spec fn key_spec(&self) -> Seq<char> {
        color_operation_spec(*self)
    }

    /// The operator as it stands in a content stream.
    fn key(&self) -> (r: &'static str) {
        match self {
            ColorOperations::NonStrokingDeviceRgb => "rg",
            ColorOperations::StrokeDeviceRgb => "RG",
            ColorOperations::StrokeDeviceGray => "G",
            ColorOperations::NonStrokingDeviceGray => "g",
            ColorOperations::StrokingCMYK => "K",
            ColorOperations::NonStrokingCMYK => "k",
        }
    }
}

/// One operation of a content stream: an operator and its operands.
#[derive(Debug)]
pub struct Operation {
    pub operator: String,
    pub operands: Vec<PdfObject>,
}

/// What an operation is: the operator's text and the operands' views.
pub open spec fn operation_view(op: Operation) -> (Seq<char>, Seq<ObjView>) {
    (op.operator@, objs_view(op.operands@))
}

/// The views of a sequence of operations.
pub open spec fn operations_view(ops: Seq<Operation>) -> Seq<(Seq<char>, Seq<ObjView>)> {
    ops.map_values(|op: Operation| operation_view(op))
}

/// The operation of a key with its operands.
pub fn to_operation<K: OperationKeyType>(key: &K, operands: Vec<PdfObject>) -> (r: Operation)
    ensures
        operation_view(r) == (key.key_spec(), objs_view(operands@)),
{
    Operation { operator: key.key().to_owned(), operands }
}

/// The operation of a key without operands.
pub fn no_operand<K: OperationKeyType>(key: &K) -> (r: Operation)
    ensures
        operation_view(r) == (key.key_spec(), Seq::<ObjView>::empty()),
{
    Operation { operator: key.key().to_owned(), operands: Vec::new() }
}

/// Collects the operations of a content stream, and the layers that it opens.
#[derive(Debug, Default)]
pub struct OperationWriter {
    pub operations: Vec<Operation>,
    /// The layers started, in order: a layer's index gives its name in the page resources.
    pub layers: Vec<LayerId>,
}

impl OperationWriter {
    /// The operations written so far.
    pub open spec fn ops_view(&self) -> Seq<(Seq<char>, Seq<ObjView>)> {
        operations_view(self.operations@)
    }

    /// An empty writer.
    pub fn new() -> (r: Self)
        ensures
            r.ops_view() == Seq::<(Seq<char>, Seq<ObjView>)>::empty(),
            r.layers@ == Seq::<LayerId>::empty(),
    {
        let r = OperationWriter { operations: Vec::new(), layers: Vec::new() };
        assert(r.ops_view() =~= Seq::<(Seq<char>, Seq<ObjView>)>::empty());
        r
    }

    /// Appends an operation of `operation` with `operands`.
    pub fn add_operation<K: OperationKeyType>(&mut self, operation: K, operands: Vec<PdfObject>)
        ensures
            final(self).ops_view() == old(self).ops_view().push(
                (operation.key_spec(), objs_view(operands@)),
            ),
            final(self).layers == old(self).layers,
    {
        let op = to_operation(&operation, operands);
        self.operations.push(op);
        assert(self.ops_view() =~= old(self).ops_view().push(operation_view(op)));
    }

    /// Appends an operation of `operation` without operands.
    pub fn push_empty_op<K: OperationKeyType>(&mut self, operation: K)
        ensures
            final(self).ops_view() == old(self).ops_view().push(
                (operation.key_spec(), Seq::<ObjView>::empty()),
            ),
            final(self).layers == old(self).layers,
    {
        let op = no_operand(&operation);
        self.operations.push(op);
        assert(self.ops_view() =~= old(self).ops_view().push(operation_view(op)));
    }

    /// The operations written.
    pub fn operations(self) -> (r: Vec<Operation>)
        ensures
            operations_view(r@) == self.ops_view(),
    {
        self.operations
    }

    /// Saves the graphics state (`q`).
    pub fn save_graphics_state(&mut self)
        ensures
            final(self).ops_view() == old(self).ops_view().push(("q"@, Seq::<ObjView>::empty())),
            final(self).layers == old(self).layers,
    {
        self.push_empty_op(OperationKeys::SaveGraphicsState);
    }

    /// Restores the graphics state (`Q`).
    pub fn restore_graphics_state(&mut self)
        ensures
            final(self).ops_view() == old(self).ops_view().push(("Q"@, Seq::<ObjView>::empty())),
            final(self).layers == old(self).layers,
    {
        self.push_empty_op(OperationKeys::RestoreGraphicsState);
    }

    /// Begins a layer: records its id and writes `/OC /id BDC`. A call of `end_section`
    /// closes it.
    pub fn start_layer(&mut self, layer_id: LayerId)
        ensures
            final(self).layers@ == old(self).layers@.push(layer_id),
            final(self).ops_view() == old(self).ops_view().push(
                ("BDC"@, seq![ObjView::Name("OC"@), ObjView::Name(layer_id.0@)]),
            ),
    {
        let id = LayerId(layer_id.0.clone());
        self.layers.push(id);
        let mut operands: Vec<PdfObject> = Vec::new();
        push_item(&mut operands, PdfObject::Name("OC".to_owned()));
        push_item(&mut operands, PdfObject::Name(layer_id.0));
        proof {
            reveal_strlit("OC");
            assert(objs_view(operands@) =~= seq![ObjView::Name("OC"@), ObjView::Name(layer_id.0@)]) by {
                reveal_with_fuel(objs_view, 3);
            }
        }
        self.add_operation(OperationKeys::BeginLayer, operands);
    }

    /// Begins a marked content section named `section_name` (`/name BMC`). A call of
    /// `end_section` closes it.
    pub fn begin_marked_content(&mut self, section_name: String)
        ensures
            final(self).ops_view() == old(self).ops_view().push(
                ("BMC"@, seq![ObjView::Name(section_name@)]),
            ),
            final(self).layers == old(self).layers,
    {
        let mut operands: Vec<PdfObject> = Vec::new();
        push_item(&mut operands, PdfObject::Name(section_name));
        proof {
            assert(objs_view(operands@) =~= seq![ObjView::Name(section_name@)]) by {
                reveal_with_fuel(objs_view, 2);
            }
        }
        self.add_operation(OperationKeys::BeginMarkedContent, operands);
    }

    /// Ends a layer or a marked content section (`EMC`).
    pub fn end_section(&mut self)
        ensures
            final(self).ops_view() == old(self).ops_view().push(("EMC"@, Seq::<ObjView>::empty())),
            final(self).layers == old(self).layers,
    {
        self.push_empty_op(OperationKeys::EndSection);
    }
}

} // verus!
