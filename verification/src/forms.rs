//! The forms in which a user edits tools, operations and stock, and the
//! rules by which their entries become values.
use vstd::prelude::*;
use crate::geometry::ids::CurveId;
use crate::lists::copy_list;
use crate::project::StockSpec;
use crate::scalar::{Scalar, ONE_BITS};
use crate::text::{blank, is_blank, trim, trimmed};
use crate::types::{CutSide, Operation, OperationTarget, Point3, Tool, ToolType};

verus! {

/// The kind of a tool, without its dimensions.
#[derive(Clone, Copy, Debug, PartialEq, Eq, Structural)]
pub enum ToolKind {
    Endmill,
    VBit,
    Ballnose,
}

impl ToolKind {
    /// The kind of a cutting geometry.
    pub open spec fn kind_of(tool_type: ToolType) -> ToolKind {
        match tool_type {
            ToolType::Endmill { .. } => ToolKind::Endmill,
            ToolType::VBit { .. } => ToolKind::VBit,
            ToolType::Ballnose { .. } => ToolKind::Ballnose,
        }
    }

    /// The kind of a cutting geometry.
    pub fn from_tool_type(tool_type: &ToolType) -> (r: ToolKind)
        ensures
            r == ToolKind::kind_of(*tool_type),
    {
        match tool_type {
            ToolType::Endmill { .. } => ToolKind::Endmill,
            ToolType::VBit { .. } => ToolKind::VBit,
            ToolType::Ballnose { .. } => ToolKind::Ballnose,
        }
    }

    /// The name of the kind.
    pub open spec fn label(self) -> Seq<char> {
        match self {
            ToolKind::Endmill => "Endmill"@,
            ToolKind::VBit => "V-bit"@,
            ToolKind::Ballnose => "Ballnose"@,
        }
    }

    /// The name of the kind.
    pub fn to_string(&self) -> (r: String)
        ensures
            r@ == self.label(),
    {
        match self {
            ToolKind::Endmill => String::from_str("Endmill"),
            ToolKind::VBit => String::from_str("V-bit"),
            ToolKind::Ballnose => String::from_str("Ballnose"),
        }
    }
}

/// The entries of the tool form, with the complaint about each.
#[derive(Clone, Debug)]
pub struct ToolForm {
    pub name: String,
    pub diameter: String,
    pub stepover: String,
    pub pass_depth: String,
    pub vbit_angle: String,
    pub kind: ToolKind,
    pub name_error: Option<String>,
    pub diameter_error: Option<String>,
    pub stepover_error: Option<String>,
    pub pass_depth_error: Option<String>,
    pub vbit_angle_error: Option<String>,
}

impl ToolForm {
    /// No entry has a complaint.
    pub open spec fn without_errors(self) -> bool {
        &&& self.name_error.is_none()
        &&& self.diameter_error.is_none()
        &&& self.stepover_error.is_none()
        &&& self.pass_depth_error.is_none()
        &&& self.vbit_angle_error.is_none()
    }

    /// The form of a new tool: an end mill with a stepover of `0.4`, and
    /// `60` as the angle in case it becomes a V-bit.
    pub fn new() -> (r: ToolForm)
        ensures
            r.name@.len() == 0,
            r.diameter@.len() == 0,
            r.stepover@ == "0.4"@,
            r.pass_depth@.len() == 0,
            r.vbit_angle@ == "60"@,
            r.kind == ToolKind::Endmill,
            r.without_errors(),
    {
        ToolForm {
            name: String::new(),
            diameter: String::new(),
            stepover: String::from_str("0.4"),
            pass_depth: String::new(),
            vbit_angle: String::from_str("60"),
            kind: ToolKind::Endmill,
            name_error: None,
            diameter_error: None,
            stepover_error: None,
            pass_depth_error: None,
            vbit_angle_error: None,
        }
    }

    /// Sets the kind. A V-bit with a blank angle gets the angle `60`.
    pub fn set_kind(&mut self, kind: ToolKind)
        ensures
            final(self).kind == kind,
            final(self).vbit_angle@ == if kind == ToolKind::VBit && blank(old(self).vbit_angle@) {
                "60"@
            } else {
                old(self).vbit_angle@
            },
            *final(self) == (ToolForm {
                kind: final(self).kind,
                vbit_angle: final(self).vbit_angle,
                ..*old(self)
            }),
    {
        self.kind = kind;
        let is_vbit = match kind {
            ToolKind::VBit => true,
            _ => false,
        };
        if is_vbit && is_blank(self.vbit_angle.as_str()) {
            self.vbit_angle = String::from_str("60");
        }
    }

    /// Drops every complaint.
    pub fn clear_errors(&mut self)
        ensures
            final(self).without_errors(),
            *final(self) == (ToolForm {
                name_error: None,
                diameter_error: None,
                stepover_error: None,
                pass_depth_error: None,
                vbit_angle_error: None,
                ..*old(self)
            }),
    {
        self.name_error = None;
        self.diameter_error = None;
        self.stepover_error = None;
        self.pass_depth_error = None;
        self.vbit_angle_error = None;
    }
}

/// The numbers that the host read from the entries of the tool form: for
/// each entry the number that its text, trimmed, is the decimal notation
/// of, or `None` if it is not a number.
#[derive(Clone, Copy, Debug)]
pub struct ToolNumbers {
    pub diameter: Option<Scalar>,
    pub stepover: Option<Scalar>,
    pub pass_depth: Option<Scalar>,
    pub vbit_angle: Option<Scalar>,
}

/// The complaint about an entry that must be a number above zero, if there is one.
pub open spec fn positive_complaint(entry: Option<Scalar>, label: Seq<char>) -> Option<Seq<char>> {
    match entry {
        None => Some(label + " must be a number"@),
        Some(value) => if value.at_most(Scalar { bits: 0 }) {
            Some(label + " must be greater than zero"@)
        } else {
            None
        },
    }
}

/// The complaint about an entry that must be a number from zero to one, if
/// there is one.
pub open spec fn fraction_complaint(entry: Option<Scalar>, label: Seq<char>) -> Option<Seq<char>> {
    match entry {
        None => Some(label + " must be a number"@),
        Some(value) => if (Scalar { bits: 0 }).at_most(value) && value.at_most(
            Scalar { bits: ONE_BITS },
        ) {
            None
        } else {
            Some(label + " must be between 0.0 and 1.0"@)
        },
    }
}

/// The number of an entry, or zero where it has a complaint.
pub open spec fn entry_value(entry: Option<Scalar>, complaint: Option<Seq<char>>) -> Scalar {
    if complaint.is_none() && entry.is_some() {
        entry.unwrap()
    } else {
        Scalar { bits: 0 }
    }
}

/// The complaints in the order of the entries, each on a line of its own.
pub open spec fn complaint_lines(complaints: Seq<Option<Seq<char>>>) -> Seq<char>
    decreases complaints.len(),
{
    if complaints.len() == 0 {
        Seq::empty()
    } else {
        let before = complaint_lines(complaints.drop_last());
        match complaints.last() {
            None => before,
            Some(text) => if any_complaint(complaints.drop_last()) {
                before + seq!['\n'] + text
            } else {
                text
            },
        }
    }
}

/// Whether any entry has a complaint.
pub open spec fn any_complaint(complaints: Seq<Option<Seq<char>>>) -> bool {
    exists|i: int| 0 <= i < complaints.len() && (#[trigger] complaints[i]).is_some()
}

/// The text of an optional complaint.
pub open spec fn complaint_text(complaint: Option<String>) -> Option<Seq<char>> {
    match complaint {
        Some(text) => Some(text@),
        None => None,
    }
}

impl ToolForm {
    /// The complaint about the name, if there is one.
    pub open spec fn name_complaint(self) -> Option<Seq<char>> {
        if blank(self.name@) {
            Some("Name is required"@)
        } else {
            None
        }
    }

    /// The complaint about the angle, which is read for a V-bit only.
    pub open spec fn angle_complaint(self, numbers: ToolNumbers) -> Option<Seq<char>> {
        if self.kind == ToolKind::VBit {
            positive_complaint(numbers.vbit_angle, "V-bit angle"@)
        } else {
            None
        }
    }

    /// The complaints about the entries, in the order of the entries.
    pub open spec fn complaints(self, numbers: ToolNumbers) -> Seq<Option<Seq<char>>> {
        seq![
            self.name_complaint(),
            positive_complaint(numbers.diameter, "Diameter"@),
            fraction_complaint(numbers.stepover, "Stepover"@),
            positive_complaint(numbers.pass_depth, "Pass depth"@),
            self.angle_complaint(numbers),
        ]
    }

    /// The cutting geometry that the entries describe.
    pub open spec fn tool_type_entered(self, numbers: ToolNumbers) -> ToolType {
        let diameter = entry_value(
            numbers.diameter,
            positive_complaint(numbers.diameter, "Diameter"@),
        );
        match self.kind {
            ToolKind::Endmill => ToolType::Endmill { diameter },
            ToolKind::Ballnose => ToolType::Ballnose { diameter },
            ToolKind::VBit => ToolType::VBit {
                angle_degrees: entry_value(numbers.vbit_angle, self.angle_complaint(numbers)),
            },
        }
    }

    /// Checks the entries and makes the tool of them.
    ///
    /// The name must not be blank, the diameter and the pass depth must be
    /// numbers above zero, the stepover a number from zero to one, and for
    /// a V-bit the angle a number above zero. Each entry that fails gets its
    /// complaint, and the result is the complaints, one per line. Without
    /// complaints the result is the tool, under the trimmed name.
    pub fn validate(&mut self, numbers: &ToolNumbers) -> (r: Result<Tool, String>)
        ensures
            complaint_text(final(self).name_error) == old(self).name_complaint(),
            complaint_text(final(self).diameter_error) == positive_complaint(
                numbers.diameter,
                "Diameter"@,
            ),
            complaint_text(final(self).stepover_error) == fraction_complaint(
                numbers.stepover,
                "Stepover"@,
            ),
            complaint_text(final(self).pass_depth_error) == positive_complaint(
                numbers.pass_depth,
                "Pass depth"@,
            ),
            complaint_text(final(self).vbit_angle_error) == old(self).angle_complaint(*numbers),
            *final(self) == (ToolForm {
                name_error: final(self).name_error,
                diameter_error: final(self).diameter_error,
                stepover_error: final(self).stepover_error,
                pass_depth_error: final(self).pass_depth_error,
                vbit_angle_error: final(self).vbit_angle_error,
                ..*old(self)
            }),
            match r {
                Ok(tool) => {
                    &&& !any_complaint(old(self).complaints(*numbers))
                    &&& tool.name@ == trimmed(old(self).name@)
                    &&& Some(tool.diameter) == numbers.diameter
                    &&& Some(tool.stepover) == numbers.stepover
                    &&& Some(tool.pass_depth) == numbers.pass_depth
                    &&& tool.tool_type == old(self).tool_type_entered(*numbers)
                },
                Err(message) => any_complaint(old(self).complaints(*numbers)) && message@
                    == complaint_lines(old(self).complaints(*numbers)),
            },
    {
        self.clear_errors();
        let ghost all = old(self).complaints(*numbers);
        let mut message = String::new();
        let mut failed = false;
        assert(all.take(0) =~= Seq::<Option<Seq<char>>>::empty());

        if is_blank(self.name.as_str()) {
            self.name_error = Some(String::from_str("Name is required"));
            add_complaint(&mut message, &mut failed, "Name is required", Ghost(all.take(0)));
        }
        proof {
            lemma_complaints_step(all, 0, message@, failed);
        }
        let diameter = match check_positive(numbers.diameter, "Diameter") {
            Ok(value) => value,
            Err(text) => {
                add_complaint(&mut message, &mut failed, text.as_str(), Ghost(all.take(1)));
                self.diameter_error = Some(text);
                Scalar::zero()
            },
        };
        proof {
            lemma_complaints_step(all, 1, message@, failed);
        }
        let stepover = match check_fraction(numbers.stepover, "Stepover") {
            Ok(value) => value,
            Err(text) => {
                add_complaint(&mut message, &mut failed, text.as_str(), Ghost(all.take(2)));
                self.stepover_error = Some(text);
                Scalar::zero()
            },
        };
        proof {
            lemma_complaints_step(all, 2, message@, failed);
        }
        let pass_depth = match check_positive(numbers.pass_depth, "Pass depth") {
            Ok(value) => value,
            Err(text) => {
                add_complaint(&mut message, &mut failed, text.as_str(), Ghost(all.take(3)));
                self.pass_depth_error = Some(text);
                Scalar::zero()
            },
        };
        proof {
            lemma_complaints_step(all, 3, message@, failed);
        }
        let tool_type = match self.kind {
            ToolKind::Endmill => ToolType::Endmill { diameter },
            ToolKind::Ballnose => ToolType::Ballnose { diameter },
            ToolKind::VBit => match check_positive(numbers.vbit_angle, "V-bit angle") {
                Ok(angle) => ToolType::VBit { angle_degrees: angle },
                Err(text) => {
                    add_complaint(&mut message, &mut failed, text.as_str(), Ghost(all.take(4)));
                    self.vbit_angle_error = Some(text);
                    ToolType::VBit { angle_degrees: Scalar::zero() }
                },
            },
        };
        proof {
            lemma_complaints_step(all, 4, message@, failed);
            assert(all.take(5) =~= all);
        }
        if failed {
            return Err(message);
        }
        Ok(
            Tool {
                name: String::from_str(trim(self.name.as_str())),
                diameter,
                stepover,
                pass_depth,
                tool_type,
            },
        )
    }
}

/// The number of an entry that must be above zero, or the complaint about it.
fn check_positive(entry: Option<Scalar>, label: &str) -> (r: Result<Scalar, String>)
    ensures
        match r {
            Ok(value) => positive_complaint(entry, label@).is_none() && entry == Some(value),
            Err(text) => positive_complaint(entry, label@) == Some(text@),
        },
{
    match entry {
        None => {
            let mut text = String::from_str(label);
            text.append(" must be a number");
            Err(text)
        },
        Some(value) => {
            if value.le(Scalar::zero()) {
                let mut text = String::from_str(label);
                text.append(" must be greater than zero");
                Err(text)
            } else {
                Ok(value)
            }
        },
    }
}

/// The number of an entry that must lie from zero to one, or the complaint about it.
fn check_fraction(entry: Option<Scalar>, label: &str) -> (r: Result<Scalar, String>)
    ensures
        match r {
            Ok(value) => fraction_complaint(entry, label@).is_none() && entry == Some(value),
            Err(text) => fraction_complaint(entry, label@) == Some(text@),
        },
{
    match entry {
        None => {
            let mut text = String::from_str(label);
            text.append(" must be a number");
            Err(text)
        },
        Some(value) => {
            if Scalar::zero().le(value) && value.le(Scalar::one()) {
                Ok(value)
            } else {
                let mut text = String::from_str(label);
                text.append(" must be between 0.0 and 1.0");
                Err(text)
            }
        },
    }
}

/// The number of a dimension, or the complaint about it.
fn check_dimension(entry: Option<Scalar>, label: &str) -> (r: Result<Scalar, String>)
    ensures
        match r {
            Ok(value) => entry == Some(value),
            Err(text) => entry.is_none() && dimension_complaint(entry, label@) == Some(text@),
        },
{
    match entry {
        None => {
            let mut text = String::from_str(label);
            text.append(" must be a number");
            Err(text)
        },
        Some(value) => Ok(value),
    }
}

/// Appends a complaint on a line of its own.
fn add_complaint(
    message: &mut String,
    failed: &mut bool,
    text: &str,
    Ghost(before): Ghost<Seq<Option<Seq<char>>>>,
)
    requires
        old(message)@ == complaint_lines(before),
        *old(failed) == any_complaint(before),
    ensures
        final(message)@ == complaint_lines(before.push(Some(text@))),
        *final(failed),
        any_complaint(before.push(Some(text@))),
{
    let ghost after = before.push(Some(text@));
    proof {
        assert(after.drop_last() =~= before);
        assert(after[before.len() as int].is_some());
        lemma_no_complaint_no_lines(before);
    }
    if *failed {
        message.push('\n');
        assert(message@ =~= complaint_lines(before) + seq!['\n']);
    }
    message.append(text);
    *failed = true;
}

/// Without complaints there are no lines.
proof fn lemma_no_complaint_no_lines(complaints: Seq<Option<Seq<char>>>)
    ensures
        !any_complaint(complaints) ==> complaint_lines(complaints).len() == 0,
    decreases complaints.len(),
{
    if complaints.len() > 0 {
        lemma_no_complaint_no_lines(complaints.drop_last());
        if !any_complaint(complaints) {
            assert(complaints[complaints.len() - 1].is_none());
            assert forall|i: int| 0 <= i < complaints.drop_last().len() implies (
            #[trigger] complaints.drop_last()[i]).is_none() by {
                assert(complaints[i].is_none());
            }
        }
    }
}

/// The message and the flag after entry `k`, from those before it.
proof fn lemma_complaints_step(
    all: Seq<Option<Seq<char>>>,
    k: int,
    message: Seq<char>,
    failed: bool,
)
    requires
        0 <= k < all.len(),
        all[k].is_none() ==> message == complaint_lines(all.take(k)) && failed == any_complaint(
            all.take(k),
        ),
        all[k].is_some() ==> message == complaint_lines(all.take(k).push(all[k])) && failed,
    ensures
        message == complaint_lines(all.take(k + 1)),
        failed == any_complaint(all.take(k + 1)),
{
    let next = all.take(k + 1);
    assert(next.drop_last() =~= all.take(k));
    assert(next.last() == all[k]);
    assert(next =~= all.take(k).push(all[k]));
    if all[k].is_some() {
        assert(next[k].is_some());
    } else {
        if any_complaint(next) {
            let i = choose|i: int| 0 <= i < next.len() && (#[trigger] next[i]).is_some();
            assert(all.take(k)[i].is_some());
        }
        if any_complaint(all.take(k)) {
            let i = choose|i: int| 0 <= i < k && (#[trigger] all.take(k)[i]).is_some();
            assert(next[i].is_some());
        }
    }
}

impl Default for ToolForm {
    fn default() -> (r: ToolForm)
        ensures
            r.name@.len() == 0,
            r.diameter@.len() == 0,
            r.stepover@ == "0.4"@,
            r.pass_depth@.len() == 0,
            r.vbit_angle@ == "60"@,
            r.kind == ToolKind::Endmill,
            r.without_errors(),
    {
        ToolForm::new()
    }
}

/// The kind of operation that the operation form edits.
#[derive(Clone, Copy, Debug, PartialEq, Eq, Structural)]
pub enum OperationKindForm {
    Pocket,
    Profile,
    VCarve,
}

/// The entries of the operation form.
#[derive(Clone, Debug)]
pub struct OperationForm {
    pub kind: OperationKindForm,
    pub depth: String,
    pub cut_side: CutSide,
    pub tool_index: Option<usize>,
    pub clearance_tool_index: Option<usize>,
    pub vcarve_max_depth: String,
    /// The curves that were selected when the form was last checked.
    pub selection_snapshot: Vec<CurveId>,
    pub error: Option<String>,
}

impl OperationForm {
    /// The form of a new operation: a profile outside the line at the depth
    /// `1.0`, without a tool.
    pub fn new() -> (r: OperationForm)
        ensures
            r.kind == OperationKindForm::Profile,
            r.depth@ == "1.0"@,
            r.cut_side == CutSide::Outside,
            r.tool_index.is_none(),
            r.clearance_tool_index.is_none(),
            r.vcarve_max_depth@.len() == 0,
            r.selection_snapshot@.len() == 0,
            r.error.is_none(),
    {
        OperationForm {
            kind: OperationKindForm::Profile,
            depth: String::from_str("1.0"),
            cut_side: CutSide::Outside,
            tool_index: None,
            clearance_tool_index: None,
            vcarve_max_depth: String::new(),
            selection_snapshot: Vec::new(),
            error: None,
        }
    }

    /// Remembers the selected curves.
    pub fn update_selection(&mut self, curves: &Vec<CurveId>)
        ensures
            final(self).selection_snapshot@ == curves@,
            *final(self) == (OperationForm {
                selection_snapshot: final(self).selection_snapshot,
                ..*old(self)
            }),
    {
        self.selection_snapshot = copy_list(curves);
    }

    /// The depth that the form asks for: for a V-carve the maximal depth,
    /// which may be left blank; else the depth. `entered` is the number of
    /// the entry in question.
    pub open spec fn depth_asked(self, entered: Option<Scalar>) -> Result<
        Option<Scalar>,
        Seq<char>,
    > {
        if self.kind == OperationKindForm::VCarve {
            if blank(self.vcarve_max_depth@) {
                Ok(None)
            } else {
                match positive_complaint(entered, "Max depth"@) {
                    Some(text) => Err(text),
                    None => Ok(entered),
                }
            }
        } else {
            match positive_complaint(entered, "Depth"@) {
                Some(text) => Err(text),
                None => Ok(entered),
            }
        }
    }

    /// Why the form cannot be saved, if it cannot: no curve is selected,
    /// the depth is not a number above zero, no tool is chosen, or the
    /// chosen tool is not one of the `tool_count` tools. The second
    /// component says whether the complaint is kept in the form.
    pub open spec fn complaint(
        self,
        selected: Seq<CurveId>,
        tool_count: usize,
        entered: Option<Scalar>,
    ) -> Option<(Seq<char>, bool)> {
        if selected.len() == 0 {
            Some(("Select at least one curve in the canvas before saving."@, true))
        } else if self.depth_asked(entered).is_err() {
            Some((self.depth_asked(entered)->Err_0, false))
        } else {
            match self.tool_index {
                Some(index) => if index < tool_count {
                    None
                } else {
                    Some(("Selected tool is no longer available."@, true))
                },
                None => Some(("Choose a tool before saving."@, true)),
            }
        }
    }

    /// The operation that the form describes, on the selected curves. A
    /// clearance tool that is not one of the tools is left out.
    pub open spec fn operation_entered(
        self,
        selected: Vec<CurveId>,
        tool_count: usize,
        entered: Option<Scalar>,
    ) -> Operation {
        let depth = self.depth_asked(entered)->Ok_0;
        let tool_index = self.tool_index.unwrap();
        match self.kind {
            OperationKindForm::Profile => Operation::Profile {
                target_depth: depth.unwrap(),
                cut_side: self.cut_side,
                tool_index,
                targets: OperationTarget::Curves(selected),
            },
            OperationKindForm::Pocket => Operation::Pocket {
                target_depth: depth.unwrap(),
                tool_index,
                target: OperationTarget::Curves(selected),
            },
            OperationKindForm::VCarve => Operation::VCarve {
                target_depth: depth,
                tool_index,
                targets: OperationTarget::Curves(selected),
                clearance_tool_index: match self.clearance_tool_index {
                    Some(index) => if index < tool_count {
                        Some(index)
                    } else {
                        None
                    },
                    None => None,
                },
            },
        }
    }

    /// Checks the form and makes the operation of it, on the selected
    /// curves. `entered` is the number that the host read from the depth
    /// entry of the form's kind, or `None` if that entry is not a number.
    ///
    /// Fails with the complaint of `complaint`. A complaint about the
    /// selection or the tool is kept in the form; one about the depth is not.
    /// Once a curve is selected, the selection is remembered.
    pub fn validate(
        &mut self,
        selected_curves: &Vec<CurveId>,
        tool_count: usize,
        entered: Option<Scalar>,
    ) -> (r: Result<Operation, String>)
        ensures
            match r {
                Ok(operation) => {
                    &&& old(self).complaint(selected_curves@, tool_count, entered).is_none()
                    &&& operation.tool_of() == old(self).tool_index.unwrap()
                    &&& operation.target_of() matches OperationTarget::Curves(curves)
                        && curves@ == selected_curves@
                    &&& exists|selected: Vec<CurveId>|
                        selected@ == selected_curves@ && operation == old(self).operation_entered(
                            selected,
                            tool_count,
                            entered,
                        )
                },
                Err(message) => {
                    &&& old(self).complaint(selected_curves@, tool_count, entered).is_some()
                    &&& message@ == old(self).complaint(
                        selected_curves@,
                        tool_count,
                        entered,
                    ).unwrap().0
                },
            },
            complaint_text(final(self).error) == match old(self).complaint(
                selected_curves@,
                tool_count,
                entered,
            ) {
                Some((text, kept)) => if kept {
                    Some(text)
                } else {
                    None
                },
                None => None,
            },
            final(self).selection_snapshot@ == if selected_curves@.len() == 0 {
                old(self).selection_snapshot@
            } else {
                selected_curves@
            },
            *final(self) == (OperationForm {
                selection_snapshot: final(self).selection_snapshot,
                error: final(self).error,
                ..*old(self)
            }),
    {
        self.error = None;
        if selected_curves.len() == 0 {
            self.error = Some(
                String::from_str("Select at least one curve in the canvas before saving."),
            );
            return Err(String::from_str("Select at least one curve in the canvas before saving."));
        }
        self.selection_snapshot = copy_list(selected_curves);
        let is_vcarve = match self.kind {
            OperationKindForm::VCarve => true,
            _ => false,
        };
        let depth: Option<Scalar> = if is_vcarve {
            if is_blank(self.vcarve_max_depth.as_str()) {
                None
            } else {
                match check_positive(entered, "Max depth") {
                    Ok(value) => Some(value),
                    Err(text) => {
                        return Err(text);
                    },
                }
            }
        } else {
            match check_positive(entered, "Depth") {
                Ok(value) => Some(value),
                Err(text) => {
                    return Err(text);
                },
            }
        };
        assert(old(self).depth_asked(entered) == Ok::<Option<Scalar>, Seq<char>>(depth));
        let tool_index: usize = match self.tool_index {
            Some(index) => {
                if index < tool_count {
                    index
                } else {
                    self.error = Some(String::from_str("Selected tool is no longer available."));
                    return Err(String::from_str("Selected tool is no longer available."));
                }
            },
            None => {
                self.error = Some(String::from_str("Choose a tool before saving."));
                return Err(String::from_str("Choose a tool before saving."));
            },
        };
        let selected = copy_list(selected_curves);
        let operation = match self.kind {
            OperationKindForm::Profile => Operation::Profile {
                target_depth: depth.unwrap(),
                cut_side: self.cut_side,
                tool_index,
                targets: OperationTarget::Curves(selected),
            },
            OperationKindForm::Pocket => Operation::Pocket {
                target_depth: depth.unwrap(),
                tool_index,
                target: OperationTarget::Curves(selected),
            },
            OperationKindForm::VCarve => Operation::VCarve {
                target_depth: depth,
                tool_index,
                targets: OperationTarget::Curves(selected),
                clearance_tool_index: match self.clearance_tool_index {
                    Some(index) => if index < tool_count {
                        Some(index)
                    } else {
                        None
                    },
                    None => None,
                },
            },
        };
        assert(operation == old(self).operation_entered(selected, tool_count, entered));
        Ok(operation)
    }
}

impl Default for OperationForm {
    fn default() -> (r: OperationForm)
        ensures
            r.kind == OperationKindForm::Profile,
            r.depth@ == "1.0"@,
            r.cut_side == CutSide::Outside,
            r.tool_index.is_none(),
            r.clearance_tool_index.is_none(),
            r.vcarve_max_depth@.len() == 0,
            r.selection_snapshot@.len() == 0,
            r.error.is_none(),
    {
        OperationForm::new()
    }
}

/// The numbers that the host read from the entries of the stock form: for
/// each dimension the number of its trimmed text, and for the origin the
/// numbers of its parts, which commas and blanks separate. `None` stands
/// for a text that is not a number.
#[derive(Clone, Debug)]
pub struct StockNumbers {
    pub width: Option<Scalar>,
    pub height: Option<Scalar>,
    pub thickness: Option<Scalar>,
    pub origin: Vec<Option<Scalar>>,
}

/// The complaint about a dimension, if there is one.
pub open spec fn dimension_complaint(entry: Option<Scalar>, label: Seq<char>) -> Option<Seq<char>> {
    match entry {
        None => Some(label + " must be a number"@),
        Some(_) => None,
    }
}

/// The origin that the parts of the entry give, or the complaint about
/// them: there must be three, and each must be a number.
pub open spec fn origin_entered(parts: Seq<Option<Scalar>>) -> Result<Point3, Seq<char>> {
    if parts.len() != 3 {
        Err("Origin must have three values separated by commas."@)
    } else if parts[0].is_none() {
        Err("Origin X must be a number"@)
    } else if parts[1].is_none() {
        Err("Origin Y must be a number"@)
    } else if parts[2].is_none() {
        Err("Origin Z must be a number"@)
    } else {
        Ok((parts[0].unwrap(), parts[1].unwrap(), parts[2].unwrap()))
    }
}

/// The entries of the stock form.
#[derive(Clone, Debug)]
pub struct StockForm {
    pub width: String,
    pub height: String,
    pub thickness: String,
    pub material: String,
    pub origin: String,
    pub error: Option<String>,
}

impl Default for StockForm {
    fn default() -> (r: StockForm)
        ensures
            r.width@.len() == 0,
            r.height@.len() == 0,
            r.thickness@.len() == 0,
            r.material@.len() == 0,
            r.origin@.len() == 0,
            r.error.is_none(),
    {
        StockForm {
            width: String::new(),
            height: String::new(),
            thickness: String::new(),
            material: String::new(),
            origin: String::new(),
            error: None,
        }
    }
}

impl StockForm {
    /// The first complaint about the entries, if there is one: about the
    /// width, the height, the thickness, or the origin where it is not blank.
    pub open spec fn complaint(self, numbers: StockNumbers) -> Option<Seq<char>> {
        if numbers.width.is_none() {
            dimension_complaint(numbers.width, "Width"@)
        } else if numbers.height.is_none() {
            dimension_complaint(numbers.height, "Height"@)
        } else if numbers.thickness.is_none() {
            dimension_complaint(numbers.thickness, "Thickness"@)
        } else if !blank(self.origin@) && origin_entered(numbers.origin@).is_err() {
            Some(origin_entered(numbers.origin@)->Err_0)
        } else {
            None
        }
    }

    /// Makes the stock of the entries. The dimensions must be numbers. The
    /// material is the trimmed entry, or none for a blank one. The origin
    /// is none for a blank entry; else it must have three parts, each a
    /// number. Fails with the first complaint.
    pub fn parse(&self, numbers: &StockNumbers) -> (r: Result<StockSpec, String>)
        ensures
            match r {
                Ok(stock) => {
                    &&& self.complaint(*numbers).is_none()
                    &&& Some(stock.width) == numbers.width
                    &&& Some(stock.height) == numbers.height
                    &&& Some(stock.thickness) == numbers.thickness
                    &&& complaint_text(stock.material) == if blank(self.material@) {
                        None
                    } else {
                        Some(trimmed(self.material@))
                    }
                    &&& stock.origin == if blank(self.origin@) {
                        None
                    } else {
                        Some(origin_entered(numbers.origin@)->Ok_0)
                    }
                },
                Err(message) => self.complaint(*numbers) == Some(message@),
            },
    {
        let width = match check_dimension(numbers.width, "Width") {
            Ok(value) => value,
            Err(text) => {
                return Err(text);
            },
        };
        let height = match check_dimension(numbers.height, "Height") {
            Ok(value) => value,
            Err(text) => {
                return Err(text);
            },
        };
        let thickness = match check_dimension(numbers.thickness, "Thickness") {
            Ok(value) => value,
            Err(text) => {
                return Err(text);
            },
        };
        let material = if is_blank(self.material.as_str()) {
            None
        } else {
            Some(String::from_str(trim(self.material.as_str())))
        };
        let origin = if is_blank(self.origin.as_str()) {
            None
        } else {
            if numbers.origin.len() != 3 {
                return Err(
                    String::from_str("Origin must have three values separated by commas."),
                );
            }
            let x = match numbers.origin[0] {
                Some(value) => value,
                None => {
                    return Err(String::from_str("Origin X must be a number"));
                },
            };
            let y = match numbers.origin[1] {
                Some(value) => value,
                None => {
                    return Err(String::from_str("Origin Y must be a number"));
                },
            };
            let z = match numbers.origin[2] {
                Some(value) => value,
                None => {
                    return Err(String::from_str("Origin Z must be a number"));
                },
            };
            Some((x, y, z))
        };
        Ok(StockSpec { width, height, thickness, material, origin })
    }
}

} // verus!
