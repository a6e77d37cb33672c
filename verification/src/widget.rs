//! The configuration tree. A widget is one node of the device's hierarchical
//! settings tree: a window (root container) or section (grouping) with
//! ordered, name-addressable children, or a leaf carrying one typed value.
//! Every value accessor is gated on the node's declared kind: using an
//! accessor of another kind is a structured error, never a coercion.

use vstd::prelude::*;

use crate::error::Error;

verus! {

/// The closed set of node kinds. Only `Window` and `Section` may have
/// children; each leaf kind fixes which value operations are legal.
#[derive(Clone, Copy, Debug, PartialEq, Eq, Structural)]
pub enum WidgetType {
    /// Root container of a whole configuration tree.
    Window,
    /// Grouping of related nodes below the root.
    Section,
    /// A free-form string setting.
    Text,
    /// A numeric setting constrained to [min, max] with a step.
    Range,
    /// A tri-state boolean setting.
    Toggle,
    /// A single choice from a declared option set.
    Radio,
    /// A single choice from a declared option set, shown as a menu.
    Menu,
    /// An absolute timestamp setting.
    Date,
    /// A stateless trigger; pressing is its only operation.
    Button,
}

/// The three states of a toggle: set, unset, or not applicable.
#[derive(Clone, Copy, Debug, PartialEq, Eq, Structural)]
pub enum ToggleValue {
    On,
    Off,
    Unknown,
}

/// The kind-dependent value a node carries.
#[derive(Clone, Debug)]
pub enum WidgetValue {
    /// Windows, sections and buttons carry no value.
    Nothing,
    Text(String),
    Range(i64),
    Toggle(ToggleValue),
    /// The currently selected option of a radio or menu node.
    Choice(String),
    /// Seconds of an absolute timestamp.
    Date(i64),
}

/// The declared bounds of a range node. A step of zero places no alignment
/// constraint on the value.
#[derive(Clone, Copy, Debug, PartialEq, Eq, Structural)]
pub struct RangeInfo {
    pub min: i64,
    pub max: i64,
    pub step: i64,
}

/// Whether `v` is legal for a range with bounds `info`: inside [min, max]
/// and, when a positive step is declared, aligned to it from min.
pub open spec fn range_ok(info: RangeInfo, v: i64) -> bool {
    &&& info.min <= v
    &&& v <= info.max
    &&& (info.step > 0 ==> (v - info.min) % (info.step as int) == 0)
}

/// Whether `v` is one of the declared options (compared by contents).
pub open spec fn has_choice(choices: Seq<String>, v: String) -> bool {
    exists|i: int| 0 <= i < choices.len() && choices[i]@ == v@
}

impl WidgetType {
    /// Only windows and sections group other nodes.
    pub open spec fn may_have_children(self) -> bool {
        self == WidgetType::Window || self == WidgetType::Section
    }

    /// Which value variant a node of this kind carries.
    pub open spec fn expects_value(self, v: WidgetValue) -> bool {
        match self {
            WidgetType::Window => v is Nothing,
            WidgetType::Section => v is Nothing,
            WidgetType::Button => v is Nothing,
            WidgetType::Text => v is Text,
            WidgetType::Range => v is Range,
            WidgetType::Toggle => v is Toggle,
            WidgetType::Radio => v is Choice,
            WidgetType::Menu => v is Choice,
            WidgetType::Date => v is Date,
        }
    }

    /// Whether this kind selects from a declared option set.
    pub open spec fn is_choice_kind(self) -> bool {
        self == WidgetType::Radio || self == WidgetType::Menu
    }
}

/// One node of the configuration tree, owned as plain data. Sub-nodes are
/// borrowed from their tree, so a view into a tree cannot outlive it.
#[derive(Debug)]
pub struct Widget {
    /// Key, unique within the parent.
    pub name: String,
    /// Human-readable label.
    pub label: String,
    pub kind: WidgetType,
    /// Whether the device declared the node read-only.
    pub readonly: bool,
    pub value: WidgetValue,
    /// Meaningful only when `kind` is `Range`.
    pub range: RangeInfo,
    /// The declared option set; meaningful only for choice kinds.
    pub choices: Vec<String>,
    pub children: Vec<Widget>,
}

impl Widget {
    /// Local well-formedness of one node: the value variant matches the
    /// kind, leaves have no children, range bounds are ordered with a
    /// non-negative step and a legal value, and a choice value is one of
    /// the declared options.
    pub open spec fn node_ok(self) -> bool {
        &&& self.kind.expects_value(self.value)
        &&& (!self.kind.may_have_children() ==> self.children.len() == 0)
        &&& (self.kind == WidgetType::Range ==> self.range.min <= self.range.max
            && self.range.step >= 0 && range_ok(self.range, self.value->Range_0))
        &&& (self.kind.is_choice_kind() ==> has_choice(self.choices@, self.value->Choice_0))
    }

    /// Well-formedness of the whole subtree.
    pub open spec fn wf(self) -> bool
        decreases self,
    {
        &&& self.node_ok()
        &&& forall|i: int| 0 <= i < self.children.len() ==> (#[trigger] self.children@[i]).wf()
    }

    /// What reading the text of this node yields.
    pub open spec fn text_read(self) -> Result<String, Error> {
        if self.kind == WidgetType::Text {
            Ok(self.value->Text_0)
        } else {
            Err(Error::WrongWidgetType)
        }
    }

    /// What writing `text` yields, and the node afterwards.
    pub open spec fn text_written(self, text: String) -> (Result<(), Error>, Widget) {
        if self.kind == WidgetType::Text {
            (Ok(()), Widget { value: WidgetValue::Text(text), ..self })
        } else {
            (Err(Error::WrongWidgetType), self)
        }
    }

    /// What reading the range value yields.
    pub open spec fn range_read(self) -> Result<i64, Error> {
        if self.kind == WidgetType::Range {
            Ok(self.value->Range_0)
        } else {
            Err(Error::WrongWidgetType)
        }
    }

    /// What writing the range value `v` yields, and the node afterwards:
    /// a value outside the declared bounds leaves the node unchanged.
    pub open spec fn range_written(self, v: i64) -> (Result<(), Error>, Widget) {
        if self.kind != WidgetType::Range {
            (Err(Error::WrongWidgetType), self)
        } else if !range_ok(self.range, v) {
            (Err(Error::OutOfRange), self)
        } else {
            (Ok(()), Widget { value: WidgetValue::Range(v), ..self })
        }
    }

    /// What reading the toggle state yields.
    pub open spec fn toggle_read(self) -> Result<ToggleValue, Error> {
        if self.kind == WidgetType::Toggle {
            Ok(self.value->Toggle_0)
        } else {
            Err(Error::WrongWidgetType)
        }
    }

    /// What writing the toggle state yields, and the node afterwards.
    pub open spec fn toggle_written(self, v: ToggleValue) -> (Result<(), Error>, Widget) {
        if self.kind == WidgetType::Toggle {
            (Ok(()), Widget { value: WidgetValue::Toggle(v), ..self })
        } else {
            (Err(Error::WrongWidgetType), self)
        }
    }

    /// What reading the selected choice yields.
    pub open spec fn choice_read(self) -> Result<String, Error> {
        if self.kind.is_choice_kind() {
            Ok(self.value->Choice_0)
        } else {
            Err(Error::WrongWidgetType)
        }
    }

    /// What selecting `v` yields, and the node afterwards: a value outside
    /// the declared option set leaves the node unchanged.
    pub open spec fn choice_written(self, v: String) -> (Result<(), Error>, Widget) {
        if !self.kind.is_choice_kind() {
            (Err(Error::WrongWidgetType), self)
        } else if !has_choice(self.choices@, v) {
            (Err(Error::InvalidChoice), self)
        } else {
            (Ok(()), Widget { value: WidgetValue::Choice(v), ..self })
        }
    }

    /// What reading the timestamp yields.
    pub open spec fn date_read(self) -> Result<i64, Error> {
        if self.kind == WidgetType::Date {
            Ok(self.value->Date_0)
        } else {
            Err(Error::WrongWidgetType)
        }
    }

    /// What writing the timestamp yields, and the node afterwards.
    pub open spec fn date_written(self, v: i64) -> (Result<(), Error>, Widget) {
        if self.kind == WidgetType::Date {
            (Ok(()), Widget { value: WidgetValue::Date(v), ..self })
        } else {
            (Err(Error::WrongWidgetType), self)
        }
    }
}

/// Whether `v` is a legal value for a range with bounds `info`.
pub fn range_value_ok(info: RangeInfo, v: i64) -> (b: bool)
    ensures
        b == range_ok(info, v),
{
    if v < info.min || v > info.max {
        return false;
    }
    if info.step > 0 {
        let diff: i128 = (v as i128) - (info.min as i128);
        if diff % (info.step as i128) != 0 {
            return false;
        }
    }
    true
}

/// Whether `value` is one of the declared options, compared by contents.
pub fn contains_choice(choices: &Vec<String>, value: &String) -> (b: bool)
    ensures
        b == has_choice(choices@, *value),
{
    let n = choices.len();
    let mut i: usize = 0;
    while i < n
        invariant
            i <= n,
            n == choices.len(),
            forall|j: int| 0 <= j < i ==> choices@[j]@ != value@,
        decreases n - i,
    {
        if choices[i] == *value {
            proof {
                assert(0 <= i < choices@.len() && choices@[i as int]@ == value@);
            }
            return true;
        }
        i += 1;
    }
    false
}

impl Widget {
    /// The node's declared kind.
    pub fn widget_type(&self) -> (r: WidgetType)
        ensures
            r == self.kind,
    {
        self.kind
    }

    /// The node's key, unique within its parent; configuration writes
    /// target the device under exactly this name.
    pub fn name(&self) -> (r: &String)
        ensures
            r@ == self.name@,
    {
        &self.name
    }

    /// The node's human-readable label.
    pub fn label(&self) -> (r: &String)
        ensures
            r@ == self.label@,
    {
        &self.label
    }

    /// Whether the device declared the node read-only.
    pub fn readonly(&self) -> (r: bool)
        ensures
            r == self.readonly,
    {
        self.readonly
    }

    /// The ordered children; empty for every leaf kind.
    pub fn children(&self) -> (r: &Vec<Widget>)
        ensures
            r@ == self.children@,
    {
        &self.children
    }

    /// How many children the node has.
    pub fn children_len(&self) -> (r: usize)
        ensures
            r == self.children.len(),
    {
        self.children.len()
    }

    /// The child at `index`, or `NotFound` when out of range.
    pub fn child_by_index(&self, index: usize) -> (r: Result<&Widget, Error>)
        requires
            self.wf(),
        ensures
            index < self.children.len() ==> r is Ok && *r->Ok_0 == self.children@[index as int]
                && r->Ok_0.wf(),
            index >= self.children.len() ==> r is Err && r->Err_0 == Error::NotFound,
    {
        if index < self.children.len() {
            Ok(&self.children[index])
        } else {
            Err(Error::NotFound)
        }
    }

    /// The first child whose name equals `name`, or `NotFound` when no
    /// child carries that name.
    pub fn child_by_name(&self, name: &str) -> (r: Result<&Widget, Error>)
        requires
            self.wf(),
        ensures
            match r {
                Ok(w) => exists|i: int|
                    0 <= i < self.children.len() && *w == self.children@[i]
                        && self.children@[i].name@ == name@ && w.wf()
                        && (forall|j: int| 0 <= j < i ==> self.children@[j].name@ != name@),
                Err(e) => e == Error::NotFound && forall|i: int|
                    0 <= i < self.children.len() ==> self.children@[i].name@ != name@,
            },
    {
        let key: String = name.to_owned();
        let n = self.children.len();
        let mut i: usize = 0;
        while i < n
            invariant
                i <= n,
                n == self.children.len(),
                key@ == name@,
                self.wf(),
                forall|j: int| 0 <= j < i ==> self.children@[j].name@ != name@,
            decreases n - i,
        {
            if self.children[i].name == key {
                let w = &self.children[i];
                proof {
                    assert(0 <= i < self.children.len() && *w == self.children@[i as int]
                        && self.children@[i as int].name@ == name@ && w.wf()
                        && (forall|j: int| 0 <= j < i ==> self.children@[j].name@ != name@));
                }
                return Ok(w);
            }
            i += 1;
        }
        Err(Error::NotFound)
    }

    /// The text of a text node; `WrongWidgetType` on every other kind.
    pub fn get_text(&self) -> (r: Result<String, Error>)
        requires
            self.wf(),
        ensures
            r == self.text_read(),
    {
        if self.kind == WidgetType::Text {
            match &self.value {
                WidgetValue::Text(t) => Ok(t.clone()),
                _ => Err(Error::WrongWidgetType),
            }
        } else {
            Err(Error::WrongWidgetType)
        }
    }

    /// Stores `text` in a text node; `WrongWidgetType` on every other
    /// kind, leaving the node unchanged.
    pub fn set_text(&mut self, text: String) -> (r: Result<(), Error>)
        requires
            old(self).wf(),
        ensures
            r == old(self).text_written(text).0,
            *final(self) == old(self).text_written(text).1,
            final(self).wf(),
    {
        if self.kind == WidgetType::Text {
            self.value = WidgetValue::Text(text);
            Ok(())
        } else {
            Err(Error::WrongWidgetType)
        }
    }

    /// The value of a range node; `WrongWidgetType` on every other kind.
    pub fn get_range(&self) -> (r: Result<i64, Error>)
        requires
            self.wf(),
        ensures
            r == self.range_read(),
    {
        if self.kind == WidgetType::Range {
            match &self.value {
                WidgetValue::Range(v) => Ok(*v),
                _ => Err(Error::WrongWidgetType),
            }
        } else {
            Err(Error::WrongWidgetType)
        }
    }

    /// The declared bounds of a range node; `WrongWidgetType` on every
    /// other kind.
    pub fn range_info(&self) -> (r: Result<RangeInfo, Error>)
        requires
            self.wf(),
        ensures
            self.kind == WidgetType::Range ==> r == Ok::<RangeInfo, Error>(self.range),
            self.kind != WidgetType::Range ==> r == Err::<RangeInfo, Error>(Error::WrongWidgetType),
    {
        if self.kind == WidgetType::Range {
            Ok(self.range)
        } else {
            Err(Error::WrongWidgetType)
        }
    }

    /// Stores `v` in a range node. A value outside [min, max] or
    /// misaligned to a positive step is `OutOfRange` and the stored value
    /// is unchanged; on every other kind it is `WrongWidgetType`.
    pub fn set_range(&mut self, v: i64) -> (r: Result<(), Error>)
        requires
            old(self).wf(),
        ensures
            r == old(self).range_written(v).0,
            *final(self) == old(self).range_written(v).1,
            final(self).wf(),
    {
        if self.kind != WidgetType::Range {
            return Err(Error::WrongWidgetType);
        }
        if !range_value_ok(self.range, v) {
            return Err(Error::OutOfRange);
        }
        self.value = WidgetValue::Range(v);
        Ok(())
    }

    /// The state of a toggle node; `WrongWidgetType` on every other kind.
    pub fn get_toggle(&self) -> (r: Result<ToggleValue, Error>)
        requires
            self.wf(),
        ensures
            r == self.toggle_read(),
    {
        if self.kind == WidgetType::Toggle {
            match &self.value {
                WidgetValue::Toggle(v) => Ok(*v),
                _ => Err(Error::WrongWidgetType),
            }
        } else {
            Err(Error::WrongWidgetType)
        }
    }

    /// Stores a toggle state; `WrongWidgetType` on every other kind.
    pub fn set_toggle(&mut self, v: ToggleValue) -> (r: Result<(), Error>)
        requires
            old(self).wf(),
        ensures
            r == old(self).toggle_written(v).0,
            *final(self) == old(self).toggle_written(v).1,
            final(self).wf(),
    {
        if self.kind == WidgetType::Toggle {
            self.value = WidgetValue::Toggle(v);
            Ok(())
        } else {
            Err(Error::WrongWidgetType)
        }
    }

    /// The selected option of a radio or menu node; `WrongWidgetType` on
    /// every other kind.
    pub fn get_choice(&self) -> (r: Result<String, Error>)
        requires
            self.wf(),
        ensures
            r == self.choice_read(),
    {
        if self.kind == WidgetType::Radio || self.kind == WidgetType::Menu {
            match &self.value {
                WidgetValue::Choice(c) => Ok(c.clone()),
                _ => Err(Error::WrongWidgetType),
            }
        } else {
            Err(Error::WrongWidgetType)
        }
    }

    /// The declared option set of a radio or menu node.
    pub fn choices(&self) -> (r: &Vec<String>)
        ensures
            r@ == self.choices@,
    {
        &self.choices
    }

    /// Selects `choice` on a radio or menu node. A value outside the
    /// declared option set is `InvalidChoice` and the selection is
    /// unchanged; on every other kind it is `WrongWidgetType`.
    pub fn set_choice(&mut self, choice: String) -> (r: Result<(), Error>)
        requires
            old(self).wf(),
        ensures
            r == old(self).choice_written(choice).0,
            *final(self) == old(self).choice_written(choice).1,
            final(self).wf(),
    {
        if !(self.kind == WidgetType::Radio || self.kind == WidgetType::Menu) {
            return Err(Error::WrongWidgetType);
        }
        if !contains_choice(&self.choices, &choice) {
            return Err(Error::InvalidChoice);
        }
        self.value = WidgetValue::Choice(choice);
        Ok(())
    }

    /// The timestamp of a date node; `WrongWidgetType` on every other kind.
    pub fn get_date(&self) -> (r: Result<i64, Error>)
        requires
            self.wf(),
        ensures
            r == self.date_read(),
    {
        if self.kind == WidgetType::Date {
            match &self.value {
                WidgetValue::Date(v) => Ok(*v),
                _ => Err(Error::WrongWidgetType),
            }
        } else {
            Err(Error::WrongWidgetType)
        }
    }

    /// Stores a timestamp in a date node; `WrongWidgetType` on every
    /// other kind.
    pub fn set_date(&mut self, v: i64) -> (r: Result<(), Error>)
        requires
            old(self).wf(),
        ensures
            r == old(self).date_written(v).0,
            *final(self) == old(self).date_written(v).1,
            final(self).wf(),
    {
        if self.kind == WidgetType::Date {
            self.value = WidgetValue::Date(v);
            Ok(())
        } else {
            Err(Error::WrongWidgetType)
        }
    }

    /// Presses a button node, which carries no value; `WrongWidgetType`
    /// on every other kind. The device-side trigger is issued by the
    /// caller writing the node back.
    pub fn press(&self) -> (r: Result<(), Error>)
        ensures
            self.kind == WidgetType::Button ==> r == Ok::<(), Error>(()),
            self.kind != WidgetType::Button ==> r == Err::<(), Error>(Error::WrongWidgetType),
    {
        if self.kind == WidgetType::Button {
            Ok(())
        } else {
            Err(Error::WrongWidgetType)
        }
    }
}

impl Widget {
    /// A root container with the given children.
    pub fn window(name: String, label: String, children: Vec<Widget>) -> (r: Widget)
        requires
            forall|i: int| 0 <= i < children.len() ==> (#[trigger] children@[i]).wf(),
        ensures
            r.wf(),
            r.kind == WidgetType::Window,
            r.name == name,
            r.label == label,
            r.value == WidgetValue::Nothing,
            r.children == children,
            !r.readonly,
    {
        Widget {
            name,
            label,
            kind: WidgetType::Window,
            readonly: false,
            value: WidgetValue::Nothing,
            range: RangeInfo { min: 0, max: 0, step: 0 },
            choices: Vec::new(),
            children,
        }
    }

    /// A grouping node with the given children.
    pub fn section(name: String, label: String, children: Vec<Widget>) -> (r: Widget)
        requires
            forall|i: int| 0 <= i < children.len() ==> (#[trigger] children@[i]).wf(),
        ensures
            r.wf(),
            r.kind == WidgetType::Section,
            r.name == name,
            r.label == label,
            r.value == WidgetValue::Nothing,
            r.children == children,
            !r.readonly,
    {
        Widget {
            name,
            label,
            kind: WidgetType::Section,
            readonly: false,
            value: WidgetValue::Nothing,
            range: RangeInfo { min: 0, max: 0, step: 0 },
            choices: Vec::new(),
            children,
        }
    }

    /// A text leaf holding `text`.
    pub fn text(name: String, label: String, text: String) -> (r: Widget)
        ensures
            r.wf(),
            r.kind == WidgetType::Text,
            r.name == name,
            r.label == label,
            r.value == WidgetValue::Text(text),
            !r.readonly,
    {
        Widget {
            name,
            label,
            kind: WidgetType::Text,
            readonly: false,
            value: WidgetValue::Text(text),
            range: RangeInfo { min: 0, max: 0, step: 0 },
            choices: Vec::new(),
            children: Vec::new(),
        }
    }

    /// A range leaf. The bounds must be ordered with a non-negative step
    /// and the value legal for them, else `OutOfRange`.
    pub fn range(name: String, label: String, info: RangeInfo, v: i64) -> (r: Result<
        Widget,
        Error,
    >)
        ensures
            r is Ok <==> (info.min <= info.max && info.step >= 0 && range_ok(info, v)),
            r is Ok ==> r->Ok_0.wf() && r->Ok_0.kind == WidgetType::Range && r->Ok_0.name == name
                && r->Ok_0.label == label && r->Ok_0.value == WidgetValue::Range(v)
                && r->Ok_0.range == info && !r->Ok_0.readonly,
            r is Err ==> r->Err_0 == Error::OutOfRange,
    {
        if info.min > info.max || info.step < 0 || !range_value_ok(info, v) {
            return Err(Error::OutOfRange);
        }
        Ok(
            Widget {
                name,
                label,
                kind: WidgetType::Range,
                readonly: false,
                value: WidgetValue::Range(v),
                range: info,
                choices: Vec::new(),
                children: Vec::new(),
            },
        )
    }

    /// A toggle leaf in the given state.
    pub fn toggle(name: String, label: String, v: ToggleValue) -> (r: Widget)
        ensures
            r.wf(),
            r.kind == WidgetType::Toggle,
            r.name == name,
            r.label == label,
            r.value == WidgetValue::Toggle(v),
            !r.readonly,
    {
        Widget {
            name,
            label,
            kind: WidgetType::Toggle,
            readonly: false,
            value: WidgetValue::Toggle(v),
            range: RangeInfo { min: 0, max: 0, step: 0 },
            choices: Vec::new(),
            children: Vec::new(),
        }
    }

    /// A radio leaf with the declared option set and a selected option,
    /// which must be one of the set, else `InvalidChoice`.
    pub fn radio(name: String, label: String, choices: Vec<String>, v: String) -> (r: Result<
        Widget,
        Error,
    >)
        ensures
            r is Ok <==> has_choice(choices@, v),
            r is Ok ==> r->Ok_0.wf() && r->Ok_0.kind == WidgetType::Radio && r->Ok_0.name == name
                && r->Ok_0.label == label && r->Ok_0.value == WidgetValue::Choice(v)
                && r->Ok_0.choices == choices && !r->Ok_0.readonly,
            r is Err ==> r->Err_0 == Error::InvalidChoice,
    {
        if !contains_choice(&choices, &v) {
            return Err(Error::InvalidChoice);
        }
        Ok(
            Widget {
                name,
                label,
                kind: WidgetType::Radio,
                readonly: false,
                value: WidgetValue::Choice(v),
                range: RangeInfo { min: 0, max: 0, step: 0 },
                choices,
                children: Vec::new(),
            },
        )
    }

    /// A menu leaf with the declared option set and a selected option,
    /// which must be one of the set, else `InvalidChoice`.
    pub fn menu(name: String, label: String, choices: Vec<String>, v: String) -> (r: Result<
        Widget,
        Error,
    >)
        ensures
            r is Ok <==> has_choice(choices@, v),
            r is Ok ==> r->Ok_0.wf() && r->Ok_0.kind == WidgetType::Menu && r->Ok_0.name == name
                && r->Ok_0.label == label && r->Ok_0.value == WidgetValue::Choice(v)
                && r->Ok_0.choices == choices && !r->Ok_0.readonly,
            r is Err ==> r->Err_0 == Error::InvalidChoice,
    {
        if !contains_choice(&choices, &v) {
            return Err(Error::InvalidChoice);
        }
        Ok(
            Widget {
                name,
                label,
                kind: WidgetType::Menu,
                readonly: false,
                value: WidgetValue::Choice(v),
                range: RangeInfo { min: 0, max: 0, step: 0 },
                choices,
                children: Vec::new(),
            },
        )
    }

    /// A date leaf holding an absolute timestamp.
    pub fn date(name: String, label: String, v: i64) -> (r: Widget)
        ensures
            r.wf(),
            r.kind == WidgetType::Date,
            r.name == name,
            r.label == label,
            r.value == WidgetValue::Date(v),
            !r.readonly,
    {
        Widget {
            name,
            label,
            kind: WidgetType::Date,
            readonly: false,
            value: WidgetValue::Date(v),
            range: RangeInfo { min: 0, max: 0, step: 0 },
            choices: Vec::new(),
            children: Vec::new(),
        }
    }

    /// A button leaf, carrying no value.
    pub fn button(name: String, label: String) -> (r: Widget)
        ensures
            r.wf(),
            r.kind == WidgetType::Button,
            r.name == name,
            r.label == label,
            r.value == WidgetValue::Nothing,
            !r.readonly,
    {
        Widget {
            name,
            label,
            kind: WidgetType::Button,
            readonly: false,
            value: WidgetValue::Nothing,
            range: RangeInfo { min: 0, max: 0, step: 0 },
            choices: Vec::new(),
            children: Vec::new(),
        }
    }
}

impl Widget {
    /// The first node in preorder (the node itself, then each child's
    /// subtree in order) whose name is `name`, if any.
    pub open spec fn find_named(self, name: Seq<char>) -> Option<Widget>
        decreases self, 1int, 0int,
    {
        if self.name@ == name {
            Some(self)
        } else {
            self.find_named_from(0, name)
        }
    }

    /// The first hit among the subtrees of the children from `i` on.
    pub open spec fn find_named_from(self, i: int, name: Seq<char>) -> Option<Widget>
        decreases self, 0int, self.children.len() - i,
    {
        if i < 0 || i >= self.children.len() {
            None
        } else {
            match self.children@[i].find_named(name) {
                Some(w) => Some(w),
                None => self.find_named_from(i + 1, name),
            }
        }
    }
}

proof fn lemma_find_from_none(w: Widget, i: int, name: Seq<char>)
    requires
        0 <= i <= w.children.len(),
        forall|j: int| i <= j < w.children.len() ==> (#[trigger] w.children@[j]).find_named(
            name,
        ) is None,
    ensures
        w.find_named_from(i, name) is None,
    decreases w.children.len() - i,
{
    if i < w.children.len() {
        lemma_find_from_none(w, i + 1, name);
    }
}

proof fn lemma_find_from_hit(w: Widget, k: int, i: int, name: Seq<char>)
    requires
        0 <= k <= i < w.children.len(),
        forall|j: int| k <= j < i ==> (#[trigger] w.children@[j]).find_named(name) is None,
        w.children@[i].find_named(name) is Some,
    ensures
        w.find_named_from(k, name) == w.children@[i].find_named(name),
    decreases i - k,
{
    if k < i {
        lemma_find_from_hit(w, k + 1, i, name);
    }
}

/// Law: what a key lookup finds in a well-formed tree is itself a
/// well-formed subtree carrying exactly the requested name.
pub proof fn lemma_find_named_wf(w: Widget, name: Seq<char>)
    requires
        w.wf(),
        w.find_named(name) is Some,
    ensures
        w.find_named(name)->Some_0.wf(),
        w.find_named(name)->Some_0.name@ == name,
    decreases w, 1int, 0int,
{
    if w.name@ != name {
        lemma_find_from_wf(w, 0, name);
    }
}

proof fn lemma_find_from_wf(w: Widget, i: int, name: Seq<char>)
    requires
        w.wf(),
        0 <= i,
        w.find_named_from(i, name) is Some,
    ensures
        w.find_named_from(i, name)->Some_0.wf(),
        w.find_named_from(i, name)->Some_0.name@ == name,
    decreases w, 0int, w.children.len() - i,
{
    if w.children@[i].find_named(name) is Some {
        assert(w.children@[i].wf());
        lemma_find_named_wf(w.children@[i], name);
    } else {
        lemma_find_from_wf(w, i + 1, name);
    }
}

impl Widget {
    /// The first node in preorder whose name equals `key`: the tree-model
    /// side of reading one configuration entry out of an already fetched
    /// tree. `None` when no node carries that name.
    pub fn find_key(&self, key: &str) -> (r: Option<&Widget>)
        requires
            self.wf(),
        ensures
            match r {
                Some(w) => Some(*w) == self.find_named(key@) && w.wf() && w.name@ == key@,
                None => self.find_named(key@) is None,
            },
        decreases *self,
    {
        let owned: String = key.to_owned();
        if self.name == owned {
            return Some(self);
        }
        let n = self.children.len();
        let mut i: usize = 0;
        while i < n
            invariant
                i <= n,
                n == self.children.len(),
                self.wf(),
                self.name@ != key@,
                owned@ == key@,
                forall|j: int| 0 <= j < i ==> (#[trigger] self.children@[j]).find_named(
                    key@,
                ) is None,
            decreases n - i,
        {
            let child = &self.children[i];
            match child.find_key(key) {
                Some(w) => {
                    proof {
                        lemma_find_from_hit(*self, 0, i as int, key@);
                    }
                    return Some(w);
                },
                None => {},
            }
            i += 1;
        }
        proof {
            lemma_find_from_none(*self, 0, key@);
        }
        None
    }
}

/// Law: a value written within its kind's valid domain reads back exactly;
/// here for text nodes.
pub proof fn lemma_text_round_trip(w: Widget, v: String)
    requires
        w.kind == WidgetType::Text,
    ensures
        w.text_written(v).0 == Ok::<(), Error>(()),
        w.text_written(v).1.text_read() == Ok::<String, Error>(v),
        w.wf() ==> w.text_written(v).1.wf(),
{
}

/// Law: a range value within [min, max] and aligned to the step writes
/// successfully and reads back exactly.
pub proof fn lemma_range_round_trip(w: Widget, v: i64)
    requires
        w.kind == WidgetType::Range,
        range_ok(w.range, v),
    ensures
        w.range_written(v).0 == Ok::<(), Error>(()),
        w.range_written(v).1.range_read() == Ok::<i64, Error>(v),
        w.wf() ==> w.range_written(v).1.wf(),
{
}

/// Law: a toggle state written to a toggle node reads back exactly.
pub proof fn lemma_toggle_round_trip(w: Widget, v: ToggleValue)
    requires
        w.kind == WidgetType::Toggle,
    ensures
        w.toggle_written(v).0 == Ok::<(), Error>(()),
        w.toggle_written(v).1.toggle_read() == Ok::<ToggleValue, Error>(v),
        w.wf() ==> w.toggle_written(v).1.wf(),
{
}

/// Law: a choice from the declared option set writes successfully and
/// reads back exactly, for radio and menu nodes alike.
pub proof fn lemma_choice_round_trip(w: Widget, v: String)
    requires
        w.kind.is_choice_kind(),
        has_choice(w.choices@, v),
    ensures
        w.choice_written(v).0 == Ok::<(), Error>(()),
        w.choice_written(v).1.choice_read() == Ok::<String, Error>(v),
        w.wf() ==> w.choice_written(v).1.wf(),
{
}

/// Law: a range accessor on a node of any other kind always yields
/// `WrongWidgetType`, and a write attempt changes nothing.
pub proof fn lemma_range_accessor_kind_gated(w: Widget, v: i64)
    requires
        w.kind != WidgetType::Range,
    ensures
        w.range_read() == Err::<i64, Error>(Error::WrongWidgetType),
        w.range_written(v) == (Err::<(), Error>(Error::WrongWidgetType), w),
{
}

/// Law: a range write outside [min, max] or misaligned to the step always
/// yields `OutOfRange` and leaves the stored value unchanged.
pub proof fn lemma_range_bounds(w: Widget, v: i64)
    requires
        w.kind == WidgetType::Range,
        !range_ok(w.range, v),
    ensures
        w.range_written(v) == (Err::<(), Error>(Error::OutOfRange), w),
{
}

/// Law: selecting a value outside the declared option set always yields
/// `InvalidChoice` and leaves the selection unchanged.
pub proof fn lemma_choice_validation(w: Widget, v: String)
    requires
        w.kind.is_choice_kind(),
        !has_choice(w.choices@, v),
    ensures
        w.choice_written(v) == (Err::<(), Error>(Error::InvalidChoice), w),
{
}

} // verus!
