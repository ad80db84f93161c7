use std::marker::PhantomData;
use deft::animation::{Animation, CssAnimationActor, StyleNodeWeak};
use deft::base::{Callback, EventRegistration, IdSource};
use deft::event_loop::{
    create_event_loop_callback, create_event_loop_fn_mut, create_event_loop_fn_once,
    create_event_loop_proxy, EventLoopFnMutCallback, MacroTask, MacroTaskQueue,
};
use deft::ext::audio::{
    handle_play_notify, Audio, AudioEvent, AudioNotify, AudioOptions, AudioSystem, PlayerCommand,
};
use deft::ext::tray::MenuClickEvent;
use deft::style::style_listener::BoxedStyleListener;
use deft::window::{DumpWindow, Fullscreen, MemorySurfacePresenter};

fn options(n: usize) -> AudioOptions {
    AudioOptions {
        sources: (0..n).map(|i| format!("track{}.mp3", i)).collect(),
        index: None,
        cache_dir: None,
        auto_loop: None,
    }
}

type Notify = AudioNotify<u32, u32, u32>;

#[test]
fn audio_ids_are_handed_out_in_order() {
    let mut sys = AudioSystem::new();
    let a = Audio::create(&mut sys, options(2)).unwrap();
    let b = Audio::create(&mut sys, options(1)).unwrap();
    assert_eq!(a.id, 1);
    assert_eq!(b.id, 2);
    assert_ne!(a.id, b.id);
    assert_eq!(sys.audios.len(), 2);
    assert_eq!(sys.audios[0].sources.next_index, 0);
    assert!(!sys.audios[0].sources.auto_loop);
}

#[test]
fn audio_options_index_and_loop_are_kept() {
    let mut sys = AudioSystem::new();
    let mut o = options(3);
    o.index = Some(2);
    o.auto_loop = Some(true);
    o.cache_dir = Some("/tmp/c".to_string());
    let a = Audio::create(&mut sys, o).unwrap();
    let s = &sys.audios[(a.id - 1) as usize].sources;
    assert_eq!(s.next_index, 2);
    assert!(s.auto_loop);
    assert_eq!(s.cache_dir, Some("/tmp/c".to_string()));
    assert_eq!(s.urls.len(), 3);
}

#[test]
fn audio_play_pause_stop() {
    let mut sys = AudioSystem::new();
    let a = Audio::create(&mut sys, options(1)).unwrap();
    Audio::play(&mut sys, a).unwrap();
    assert!(sys.playing.contains_key(&a.id));
    Audio::pause(&mut sys, a).unwrap();
    assert!(sys.playing.contains_key(&a.id));
    a.stop(&mut sys).unwrap();
    assert!(!sys.playing.contains_key(&a.id));
    assert_eq!(
        sys.commands,
        vec![PlayerCommand::Play(1), PlayerCommand::Pause(1), PlayerCommand::Stop(1)]
    );
}

#[test]
fn audio_unknown_event_type_is_refused() {
    let mut sys = AudioSystem::new();
    let mut a = Audio::create(&mut sys, options(1)).unwrap();
    let e = a.add_event_listener(&mut sys, "bogus".to_string()).unwrap_err();
    assert_eq!(e.message, "unknown event_type:bogus");
    assert_eq!(sys.audios[0].event_registration.listeners.len(), 0);
    assert_eq!(a.add_event_listener(&mut sys, "load".to_string()).unwrap(), 1);
    assert_eq!(a.add_event_listener(&mut sys, "finish".to_string()).unwrap(), 2);
}

#[test]
fn audio_notifications_reach_listeners_while_playing() {
    let mut sys = AudioSystem::new();
    let mut a = Audio::create(&mut sys, options(1)).unwrap();
    let l1 = a.add_event_listener(&mut sys, "load".to_string()).unwrap();
    let l2 = a.register_event_listener(&mut sys, "finish");
    let l3 = a.register_event_listener(&mut sys, "load");
    assert_eq!(l3, l2 + 1);
    assert_eq!(sys.audios[0].event_registration.next_id, l3 + 1);
    assert!(handle_play_notify(&mut sys, a.id, Notify::Load(7)).is_none());
    Audio::play(&mut sys, a).unwrap();
    match handle_play_notify(&mut sys, a.id, Notify::Load(7)) {
        Some((AudioEvent::Load(ev), ids)) => {
            assert_eq!(ev.0, 7);
            assert_eq!(ids, vec![l1, l3]);
        }
        _ => panic!("expected a load event"),
    }
    a.unregister_event_listener(&mut sys, l3);
    a.remove_event_listener(&mut sys, "finish".to_string(), l1).unwrap();
    match handle_play_notify(&mut sys, a.id, Notify::Load(8)) {
        Some((_, ids)) => assert_eq!(ids, vec![l1]),
        None => panic!("still playing"),
    }
    match handle_play_notify(&mut sys, a.id, Notify::Finish) {
        Some((AudioEvent::Finish(_), ids)) => assert_eq!(ids, vec![l2]),
        _ => panic!("expected a finish event"),
    }
    assert!(!sys.playing.contains_key(&a.id));
    assert!(handle_play_notify(&mut sys, a.id, Notify::End).is_none());
}

#[test]
fn event_registration_register_emit_unregister() {
    let mut reg = EventRegistration::new();
    let a = reg.register_event_listener("click");
    let b = reg.register_event_listener("key");
    let c = reg.register_event_listener("click");
    assert_eq!((a, b, c), (1, 2, 3));
    assert_eq!(reg.emit("click"), vec![1, 3]);
    reg.remove_event_listener("key", 3);
    assert_eq!(reg.emit("click"), vec![1, 3]);
    reg.remove_event_listener("click", 3);
    assert_eq!(reg.emit("click"), vec![1]);
    reg.unregister_event_listener(1);
    assert!(reg.emit("click").is_empty());
    assert_eq!(reg.emit("key"), vec![2]);
}

#[test]
fn id_source_counts_up() {
    let mut ids = IdSource::new();
    assert_eq!(ids.take(), 1);
    assert_eq!(ids.take(), 2);
    assert_eq!(ids.next, 3);
}

#[test]
fn macro_tasks_are_queued_until_closed() {
    let proxy = create_event_loop_proxy();
    let mut q: MacroTaskQueue<u8> = MacroTaskQueue::new();
    assert!(proxy.schedule_macro_task(&mut q, MacroTask { callback: Callback { id: 1 }, param: 4 }).is_ok());
    assert_eq!(q.tasks.len(), 1);
    q.closed = true;
    let e = proxy.schedule_macro_task(&mut q, MacroTask { callback: Callback { id: 2 }, param: 5 }).unwrap_err();
    assert_eq!(e.message, "event loop closed");
    assert_eq!(q.tasks.len(), 1);
}

#[test]
fn event_loop_callbacks_schedule_tasks() {
    let mut q0: MacroTaskQueue<()> = MacroTaskQueue::new();
    create_event_loop_callback(Callback { id: 9 }).call(&mut q0);
    assert_eq!(q0.tasks.len(), 1);
    assert_eq!(q0.tasks[0].callback, Callback { id: 9 });

    let mut q: MacroTaskQueue<i32> = MacroTaskQueue::new();
    create_event_loop_fn_once::<i32>(Callback { id: 3 }).call(-1, &mut q);
    let mut f: EventLoopFnMutCallback<i32> = create_event_loop_fn_mut(Callback { id: 4 });
    let mut g = f.duplicate();
    f.call(10, &mut q);
    g.call(11, &mut q);
    let got: Vec<(u64, i32)> = q.tasks.iter().map(|t| (t.callback.id, t.param)).collect();
    assert_eq!(got, vec![(3, -1), (4, 10), (4, 11)]);
    q.closed = true;
    f.call(12, &mut q);
    assert_eq!(q.tasks.len(), 3);
    let _ = PhantomData::<i32>;
}

#[test]
fn animation_stop_marks_live_node() {
    let node = StyleNodeWeak { id: 1, alive: true, style_dirty: false };
    let mut actor = CssAnimationActor::new(node, Animation { name: "spin".to_string() }, BoxedStyleListener::new_noop());
    actor.stop();
    assert!(actor.style_node.style_dirty);
    let gone = StyleNodeWeak { id: 2, alive: false, style_dirty: false };
    let mut actor2 = CssAnimationActor::new(gone, Animation { name: "x".to_string() }, BoxedStyleListener::new_noop());
    actor2.stop();
    assert!(!actor2.style_node.style_dirty);
}

#[test]
fn memory_surface_buffer_fits_frame() {
    let mut p = MemorySurfacePresenter::new(2, 3);
    assert_eq!(p.prepare_buffer(), 8);
    assert_eq!(p.buffer.len(), 24);
    assert!(p.buffer.iter().all(|b| *b == 0));
    p.buffer[0] = 5;
    p.resize(1, 1);
    assert_eq!(p.size(), (1, 1));
    assert_eq!(p.prepare_buffer(), 4);
    assert_eq!(p.buffer, vec![5, 0, 0, 0]);
}

#[test]
fn dump_window_defaults() {
    let mut w = DumpWindow::new(10, 20);
    w.resize_surface(30, 40);
    assert_eq!(w.surface.size(), (30, 40));
    assert_eq!(w.inner_size(), (0, 0));
    assert_eq!(w.inner_position(), (0, 0));
    assert_eq!(w.is_visible(), None);
    assert!(!w.is_maximized());
    assert_eq!(w.title(), "");
    w.set_title("t");
    w.set_visible(true);
    w.set_maximized(true);
    w.set_fullscreen(Some(Fullscreen::Borderless));
    assert_eq!(w.title(), "");
    assert_eq!(w.is_visible(), None);
    assert!(!w.is_maximized());
    assert_eq!(w.fullscreen(), None);
}

#[test]
fn tray_menu_click_event_holds_id() {
    let e = MenuClickEvent("quit".to_string());
    assert_eq!(e.0, "quit");
}

use deft::ext::tray::{SystemTray, TrayCommand, TrayIds};

#[test]
fn tray_events_and_commands() {
    let mut ids = TrayIds::new();
    let mut t = SystemTray::create(&mut ids, "main".to_string()).unwrap();
    let t2 = SystemTray::create(&mut ids, "other".to_string()).unwrap();
    assert_eq!((t.get_id(), t2.get_id()), (1, 2));
    let e = t.bind_event("hover".to_string()).unwrap_err();
    assert_eq!(e.message, "unknown event_type:hover");
    let m = t.bind_event("menuclick".to_string()).unwrap();
    let a = t.bind_event("activate".to_string()).unwrap();
    let (ev, ls) = t.menu_clicked("quit".to_string());
    assert_eq!(ev.0, "quit");
    assert_eq!(ls, vec![m]);
    assert_eq!(t.activated().1, vec![a]);
    t.remove_event_listener("menuclick".to_string(), m as i32);
    assert!(t.menu_clicked("x".to_string()).1.is_empty());
    t.unregister_event_listener(a);
    assert!(t.activated().1.is_empty());
    t.set_title("T".to_string());
    t.set_show_menu_on_left_click(true);
    t.set_icon("icon.png".to_string());
    assert_eq!(
        t.commands,
        vec![
            TrayCommand::SetTitle("T".to_string()),
            TrayCommand::SetShowMenuOnLeftClick(true),
            TrayCommand::SetIcon("icon.png".to_string()),
        ]
    );
}
