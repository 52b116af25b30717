use wrui::{
    Application, DockWidget, Entry, MainWindow, NativeArg, ObjectRef, PushButton, RetKind,
    TableRef, WidgetKind,
};

const ALL: [Entry; 7] = [
    Entry::ApplicationRun,
    Entry::WindowSetTitle,
    Entry::PushButtonSetDefault,
    Entry::MainWindowAddDockWidget,
    Entry::DockWidgetIsFloating,
    Entry::DockWidgetSetFloating,
    Entry::DockWidgetSetWidget,
];

fn table_len(kind: WidgetKind) -> usize {
    ALL.iter().filter(|e| e.kind() == kind).count()
}

#[test]
fn entries_belong_to_their_kind() {
    assert_eq!(Entry::ApplicationRun.kind(), WidgetKind::Application);
    assert_eq!(Entry::WindowSetTitle.kind(), WidgetKind::Window);
    assert_eq!(Entry::PushButtonSetDefault.kind(), WidgetKind::PushButton);
    assert_eq!(Entry::MainWindowAddDockWidget.kind(), WidgetKind::MainWindow);
    assert_eq!(Entry::DockWidgetIsFloating.kind(), WidgetKind::DockWidget);
    assert_eq!(Entry::DockWidgetSetFloating.kind(), WidgetKind::DockWidget);
    assert_eq!(Entry::DockWidgetSetWidget.kind(), WidgetKind::DockWidget);
}

#[test]
fn entries_stand_at_fixed_positions() {
    assert_eq!(Entry::ApplicationRun.position(), 0);
    assert_eq!(Entry::WindowSetTitle.position(), 0);
    assert_eq!(Entry::PushButtonSetDefault.position(), 0);
    assert_eq!(Entry::MainWindowAddDockWidget.position(), 0);
    assert_eq!(Entry::DockWidgetIsFloating.position(), 0);
    assert_eq!(Entry::DockWidgetSetFloating.position(), 1);
    assert_eq!(Entry::DockWidgetSetWidget.position(), 2);
}

#[test]
fn no_two_entries_of_a_kind_share_a_position() {
    for a in ALL.iter() {
        for b in ALL.iter() {
            if a.kind() == b.kind() && a.position() == b.position() {
                assert_eq!(a, b);
            }
        }
    }
}

#[test]
fn every_position_of_a_table_holds_an_entry() {
    assert_eq!(table_len(WidgetKind::DockWidget), 3);
    assert_eq!(table_len(WidgetKind::Application), 1);
    for e in ALL.iter() {
        assert!(e.position() < table_len(e.kind()));
    }
    for position in 0..3usize {
        assert!(ALL
            .iter()
            .any(|e| e.kind() == WidgetKind::DockWidget && e.position() == position));
    }
}

#[test]
fn entries_declare_what_comes_back() {
    assert_eq!(Entry::ApplicationRun.result_kind(), RetKind::Int);
    assert_eq!(Entry::DockWidgetIsFloating.result_kind(), RetKind::Bool);
    assert_eq!(Entry::WindowSetTitle.result_kind(), RetKind::Unit);
    assert_eq!(Entry::PushButtonSetDefault.result_kind(), RetKind::Unit);
    assert_eq!(Entry::MainWindowAddDockWidget.result_kind(), RetKind::Unit);
    assert_eq!(Entry::DockWidgetSetFloating.result_kind(), RetKind::Unit);
    assert_eq!(Entry::DockWidgetSetWidget.result_kind(), RetKind::Unit);
}

#[test]
fn run_takes_no_declared_argument() {
    let app = Application::new(TableRef::from_addr(0x100), ObjectRef::from_addr(0x200));
    let call = app.run();
    assert_eq!(call.entry(), Entry::ApplicationRun);
    assert_eq!(call.position(), 0);
    assert_eq!(call.table(), app.get_funcs());
    assert_eq!(call.object(), app.get_obj());
    assert!(call.args().is_empty());
}

#[test]
fn set_default_passes_the_integer_unchanged() {
    let button = PushButton::new(TableRef::from_addr(0x100), ObjectRef::from_addr(0x200));
    for state in [0, 1, -1, 42, i32::MIN, i32::MAX] {
        let call = button.set_default(state);
        assert_eq!(call.entry(), Entry::PushButtonSetDefault);
        assert_eq!(call.object(), button.get_obj());
        assert_eq!(*call.args(), vec![NativeArg::Int(state)]);
    }
}

#[test]
fn add_dock_widget_forwards_window_area_and_dock_in_order() {
    let main = MainWindow::new(TableRef::from_addr(0x1000), ObjectRef::from_addr(0x2000));
    let dock = DockWidget::new(TableRef::from_addr(0x3000), ObjectRef::from_addr(0x4000));
    let call = main.add_dock_widget(2, &dock);
    assert_eq!(call.entry(), Entry::MainWindowAddDockWidget);
    assert_eq!(call.position(), 0);
    assert_eq!(call.table(), main.get_funcs());
    assert_eq!(call.object(), main.get_obj());
    assert_eq!(*call.args(), vec![NativeArg::UInt(2), NativeArg::Object(dock.get_obj())]);
    assert_eq!(call.args()[1], NativeArg::Object(ObjectRef::from_addr(0x4000)));
}

#[test]
fn add_dock_widget_leaves_the_docks_table_behind() {
    let main = MainWindow::new(TableRef::from_addr(0x1000), ObjectRef::from_addr(0x2000));
    let dock = DockWidget::new(TableRef::from_addr(0x3000), ObjectRef::from_addr(0x4000));
    let call = main.add_dock_widget(8, &dock);
    assert_ne!(call.table(), dock.get_funcs());
    assert!(!call.args().contains(&NativeArg::Object(ObjectRef::from_addr(0x3000))));
    assert_eq!(call.args().len(), 2);
}

#[test]
fn add_dock_widget_passes_every_area_unchanged() {
    let main = MainWindow::new(TableRef::from_addr(0x1000), ObjectRef::from_addr(0x2000));
    let dock = DockWidget::new(TableRef::from_addr(0x3000), ObjectRef::from_addr(0x4000));
    for area in [0u32, 1, 2, 4, 8, u32::MAX] {
        let call = main.add_dock_widget(area, &dock);
        assert_eq!(call.args()[0], NativeArg::UInt(area));
    }
}

#[test]
fn set_widget_takes_the_object_of_any_kind_of_widget() {
    let t = TableRef::from_addr(0x1000);
    let dock = DockWidget::new(t, ObjectRef::from_addr(0x2000));
    let button = PushButton::new(TableRef::from_addr(0x5000), ObjectRef::from_addr(0x6000));
    let inner = DockWidget::new(t, ObjectRef::from_addr(0x7000));

    let call = dock.set_widget(button.get_obj());
    assert_eq!(call.entry(), Entry::DockWidgetSetWidget);
    assert_eq!(call.position(), 2);
    assert_eq!(call.table(), t);
    assert_eq!(call.object(), dock.get_obj());
    assert_eq!(*call.args(), vec![NativeArg::Object(ObjectRef::from_addr(0x6000))]);

    let call = dock.set_widget(inner.get_obj());
    assert_eq!(*call.args(), vec![NativeArg::Object(ObjectRef::from_addr(0x7000))]);
}

#[test]
fn is_floating_asks_at_the_first_position() {
    let dock = DockWidget::new(TableRef::from_addr(0x1000), ObjectRef::from_addr(0x2000));
    let call = dock.is_floating();
    assert_eq!(call.entry(), Entry::DockWidgetIsFloating);
    assert_eq!(call.position(), 0);
    assert_eq!(call.entry().result_kind(), RetKind::Bool);
    assert!(call.args().is_empty());
}
