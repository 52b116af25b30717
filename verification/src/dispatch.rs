//! Which native entry a call addresses, and the call itself as a value.
//!
//! Every widget kind has one table of entry points. An entry is found by its
//! position in that table and by nothing else: there is no lookup by name and
//! no fallback. The position, the shapes of the declared arguments and the
//! shape of the result are fixed per entry, in the order in which the native
//! side declares them.

use vstd::prelude::*;
use crate::marshal::{ArgKind, ArgView, NativeArg};
use crate::refs::{ObjectRef, TableRef};

verus! {

/// The kinds of native object that a handle can stand for. Each has a table
/// of its own; none shares a layout with another.
#[derive(Clone, Copy, Debug, PartialEq, Eq, Structural)]
pub enum WidgetKind {
    Application,
    Window,
    PushButton,
    MainWindow,
    DockWidget,
}

/// The native shapes a result can have.
#[derive(Clone, Copy, Debug, PartialEq, Eq, Structural)]
pub enum RetKind {
    /// Nothing comes back.
    Unit,
    /// A signed 32-bit integer, taken as it is.
    Int,
    /// A boolean in one byte, to be read with [`crate::marshal::decode_bool`].
    Bool,
}

/// One entry point of one kind's table.
#[derive(Clone, Copy, Debug, PartialEq, Eq, Structural)]
pub enum Entry {
    ApplicationRun,
    WindowSetTitle,
    PushButtonSetDefault,
    MainWindowAddDockWidget,
    DockWidgetIsFloating,
    DockWidgetSetFloating,
    DockWidgetSetWidget,
}

/// The number of entries in the table of `kind`.
pub open spec fn table_len(kind: WidgetKind) -> nat {
    match kind {
        WidgetKind::Application => 1,
        WidgetKind::Window => 1,
        WidgetKind::PushButton => 1,
        WidgetKind::MainWindow => 1,
        WidgetKind::DockWidget => 3,
    }
}

impl Entry {
    /// The kind whose table holds this entry.
    pub open spec fn spec_kind(&self) -> WidgetKind {
        match self {
            Entry::ApplicationRun => WidgetKind::Application,
            Entry::WindowSetTitle => WidgetKind::Window,
            Entry::PushButtonSetDefault => WidgetKind::PushButton,
            Entry::MainWindowAddDockWidget => WidgetKind::MainWindow,
            Entry::DockWidgetIsFloating => WidgetKind::DockWidget,
            Entry::DockWidgetSetFloating => WidgetKind::DockWidget,
            Entry::DockWidgetSetWidget => WidgetKind::DockWidget,
        }
    }

    /// Where in its table this entry stands, counted from zero.
    pub open spec fn spec_position(&self) -> usize {
        match self {
            Entry::ApplicationRun => 0,
            Entry::WindowSetTitle => 0,
            Entry::PushButtonSetDefault => 0,
            Entry::MainWindowAddDockWidget => 0,
            Entry::DockWidgetIsFloating => 0,
            Entry::DockWidgetSetFloating => 1,
            Entry::DockWidgetSetWidget => 2,
        }
    }

    /// The shapes of the declared arguments, in order. The object that the
    /// entry is invoked on comes before them and is not listed.
    pub open spec fn params(&self) -> Seq<ArgKind> {
        match self {
            Entry::ApplicationRun => seq![],
            Entry::WindowSetTitle => seq![ArgKind::Text],
            Entry::PushButtonSetDefault => seq![ArgKind::Int],
            Entry::MainWindowAddDockWidget => seq![ArgKind::UInt, ArgKind::Object],
            Entry::DockWidgetIsFloating => seq![],
            Entry::DockWidgetSetFloating => seq![ArgKind::Bool],
            Entry::DockWidgetSetWidget => seq![ArgKind::Object],
        }
    }

    /// The shape of what the entry gives back.
    pub open spec fn spec_result_kind(&self) -> RetKind {
        match self {
            Entry::ApplicationRun => RetKind::Int,
            Entry::DockWidgetIsFloating => RetKind::Bool,
            _ => RetKind::Unit,
        }
    }

    /// The kind whose table holds this entry.
    #[verifier::when_used_as_spec(spec_kind)]
    pub fn kind(&self) -> (k: WidgetKind)
        ensures
            k == self.spec_kind(),
    {
        match self {
            Entry::ApplicationRun => WidgetKind::Application,
            Entry::WindowSetTitle => WidgetKind::Window,
            Entry::PushButtonSetDefault => WidgetKind::PushButton,
            Entry::MainWindowAddDockWidget => WidgetKind::MainWindow,
            Entry::DockWidgetIsFloating => WidgetKind::DockWidget,
            Entry::DockWidgetSetFloating => WidgetKind::DockWidget,
            Entry::DockWidgetSetWidget => WidgetKind::DockWidget,
        }
    }

    /// Where in its table this entry stands, counted from zero.
    #[verifier::when_used_as_spec(spec_position)]
    pub fn position(&self) -> (p: usize)
        ensures
            p == self.spec_position(),
            p < table_len(self.spec_kind()),
    {
        match self {
            Entry::ApplicationRun => 0,
            Entry::WindowSetTitle => 0,
            Entry::PushButtonSetDefault => 0,
            Entry::MainWindowAddDockWidget => 0,
            Entry::DockWidgetIsFloating => 0,
            Entry::DockWidgetSetFloating => 1,
            Entry::DockWidgetSetWidget => 2,
        }
    }

    /// The shape of what the entry gives back.
    #[verifier::when_used_as_spec(spec_result_kind)]
    pub fn result_kind(&self) -> (r: RetKind)
        ensures
            r == self.spec_result_kind(),
    {
        match self {
            Entry::ApplicationRun => RetKind::Int,
            Entry::DockWidgetIsFloating => RetKind::Bool,
            _ => RetKind::Unit,
        }
    }
}

/// Entries and table positions correspond one to one: every entry stands
/// inside its kind's table, and no two entries of a kind share a position.
pub proof fn lemma_one_entry_per_position(a: Entry, b: Entry)
    ensures
        a.position() < table_len(a.kind()),
        a.kind() == b.kind() && a.position() == b.position() ==> a == b,
{
}

/// No position of a table is left without an entry.
pub proof fn lemma_table_is_full(kind: WidgetKind, position: usize)
    requires
        position < table_len(kind),
    ensures
        exists|e: Entry| e.kind() == kind && e.position() == position,
{
    let e = match kind {
        WidgetKind::Application => Entry::ApplicationRun,
        WidgetKind::Window => Entry::WindowSetTitle,
        WidgetKind::PushButton => Entry::PushButtonSetDefault,
        WidgetKind::MainWindow => Entry::MainWindowAddDockWidget,
        WidgetKind::DockWidget => if position == 0 {
            Entry::DockWidgetIsFloating
        } else if position == 1 {
            Entry::DockWidgetSetFloating
        } else {
            Entry::DockWidgetSetWidget
        },
    };
    assert(e.kind() == kind && e.position() == position);
}

/// One invocation of a native entry, ready to be carried out: the table to
/// go through, the entry in it, the object to invoke it on, and the declared
/// arguments in native shape and in order.
///
/// A call cannot be put together by hand. The only calls there are come from
/// the methods of the handles, and each of them conforms to its entry.
#[derive(Debug, PartialEq, Eq)]
pub struct NativeCall {
    entry: Entry,
    table: TableRef,
    object: ObjectRef,
    args: Vec<NativeArg>,
}

/// What a [`NativeCall`] holds, as a mathematical value.
#[verifier::ext_equal]
pub struct CallView {
    pub entry: Entry,
    pub table: TableRef,
    pub object: ObjectRef,
    pub args: Seq<ArgView>,
}

impl CallView {
    /// The position in the table at which the call enters.
    pub open spec fn position(self) -> usize {
        self.entry.position()
    }

    /// Everything the native entry receives, in order: the object first,
    /// then the declared arguments.
    pub open spec fn native_args(self) -> Seq<ArgView> {
        seq![ArgView::Object(self.object)] + self.args
    }

    /// The call keeps to the native interface: table and object are there,
    /// and the arguments are as many, of the shapes and in the order that
    /// the entry declares, each one well formed.
    pub open spec fn conforms(self) -> bool {
        &&& !self.table.is_null()
        &&& !self.object.is_null()
        &&& self.args.len() == self.entry.params().len()
        &&& forall|i: int|
            0 <= i < self.args.len() ==> {
                &&& (#[trigger] self.args[i]).kind() == self.entry.params()[i]
                &&& self.args[i].well_formed()
            }
    }
}

/// The arguments of a call, each as a mathematical value.
pub open spec fn arg_views(args: Seq<NativeArg>) -> Seq<ArgView> {
    args.map_values(|a: NativeArg| a@)
}

impl View for NativeCall {
    type V = CallView;

    closed spec fn view(&self) -> CallView {
        CallView {
            entry: self.entry,
            table: self.table,
            object: self.object,
            args: arg_views(self.args@),
        }
    }
}

impl NativeCall {
    #[verifier::type_invariant]
    spec fn keeps_to_its_entry(&self) -> bool {
        self@.conforms()
    }

    /// Puts a call together from its parts, changing none of them.
    pub(crate) fn new(entry: Entry, table: TableRef, object: ObjectRef, args: Vec<NativeArg>) -> (call:
        NativeCall)
        requires
            (CallView { entry, table, object, args: arg_views(args@) }).conforms(),
        ensures
            call@ == (CallView { entry, table, object, args: arg_views(args@) }),
    {
        NativeCall { entry, table, object, args }
    }

    /// The entry that the call addresses.
    pub fn entry(&self) -> (entry: Entry)
        ensures
            entry == self@.entry,
    {
        self.entry
    }

    /// The position in the table at which the call enters.
    pub fn position(&self) -> (p: usize)
        ensures
            p == self@.position(),
            p < table_len(self@.entry.kind()),
    {
        self.entry.position()
    }

    /// The table that the call goes through. It is never null.
    pub fn table(&self) -> (table: TableRef)
        ensures
            table == self@.table,
            !table.is_null(),
    {
        proof {
            use_type_invariant(self);
        }
        self.table
    }

    /// The object that the entry is invoked on, which is its first native
    /// argument. It is never null.
    pub fn object(&self) -> (object: ObjectRef)
        ensures
            object == self@.object,
            !object.is_null(),
    {
        proof {
            use_type_invariant(self);
        }
        self.object
    }

    /// The declared arguments, in order. They are as many and of the shapes
    /// that the entry declares.
    pub fn args(&self) -> (args: &Vec<NativeArg>)
        ensures
            arg_views(args@) == self@.args,
            self@.conforms(),
    {
        proof {
            use_type_invariant(self);
        }
        &self.args
    }
}

} // verus!
