use nrclue::ui::event::{EventSource, Round, TICK_RATE_MS};
use nrclue::ui::render::{
    arrange, chart, home, layout, menu, panel, query, render, settings, status, Color, Region,
};
use nrclue::ui::{event_loop, run, Action, Error, Event, Key, MenuItem, Session, Stage, Ui};

fn press(c: char) -> Event<Key> {
    Event::Input(Key::Char(c))
}

fn region(x: u16, y: u16, width: u16, height: u16) -> Region {
    Region { x, y, width, height }
}

fn texts(panel: &nrclue::ui::render::Panel) -> Vec<String> {
    panel.lines.iter().map(|line| line.text.clone()).collect()
}

#[test]
fn interface_starts_on_home_and_running() {
    let ui = Ui::new();
    assert_eq!(ui.active(), MenuItem::Home);
    assert!(ui.is_running());
}

#[test]
fn q_then_upper_q_goes_to_query_and_then_stops() {
    let mut ui = Ui::new();
    assert_eq!(ui.on_event(&press('q')), Action::Render);
    assert_eq!(ui.active(), MenuItem::Query);
    assert!(ui.is_running());
    assert_eq!(ui.on_event(&press('Q')), Action::Exit);
    assert_eq!(ui.active(), MenuItem::Query);
    assert!(!ui.is_running());
}

#[test]
fn event_loop_renders_home_then_query_and_exits() {
    let session = event_loop(&vec![press('q'), press('Q')]);
    assert_eq!(session, Session { frames: vec![MenuItem::Home, MenuItem::Query], exited: true });
}

#[test]
fn each_panel_has_its_key() {
    for (key, item) in [
        ('H', MenuItem::Home),
        ('q', MenuItem::Query),
        ('c', MenuItem::Chart),
        ('s', MenuItem::Settings),
    ] {
        let mut ui = Ui::new();
        ui.on_event(&press('c'));
        assert_eq!(ui.on_event(&press(key)), Action::Render);
        assert_eq!(ui.active(), item);
        assert!(ui.is_running());
    }
}

#[test]
fn keys_are_case_sensitive() {
    let mut ui = Ui::new();
    ui.on_event(&press('s'));
    for key in ['h', 'C', 'S', 'x', ' ', '1'] {
        assert_eq!(ui.on_event(&press(key)), Action::Render);
        assert_eq!(ui.active(), MenuItem::Settings);
        assert!(ui.is_running());
    }
    assert_eq!(ui.on_event(&Event::Input(Key::Other)), Action::Render);
    assert_eq!(ui.active(), MenuItem::Settings);
}

#[test]
fn tick_leaves_the_state_unchanged() {
    let mut ui = Ui::new();
    ui.on_event(&press('c'));
    for _ in 0..5 {
        assert_eq!(ui.on_event(&Event::Tick), Action::Render);
        assert_eq!(ui.active(), MenuItem::Chart);
        assert!(ui.is_running());
    }
}

#[test]
fn stopped_interface_stays_stopped() {
    let mut ui = Ui::new();
    ui.on_event(&press('Q'));
    for event in [press('q'), Event::Tick, press('H'), press('Q')] {
        assert_eq!(ui.on_event(&event), Action::Exit);
        assert_eq!(ui.active(), MenuItem::Home);
        assert!(!ui.is_running());
    }
}

#[test]
fn event_loop_without_events_renders_once() {
    let session = event_loop(&vec![]);
    assert_eq!(session, Session { frames: vec![MenuItem::Home], exited: false });
}

#[test]
fn event_loop_redraws_after_every_event() {
    let session = event_loop(&vec![Event::Tick, press('s'), Event::Tick, press('x'), press('H')]);
    assert_eq!(
        session,
        Session {
            frames: vec![
                MenuItem::Home,
                MenuItem::Home,
                MenuItem::Settings,
                MenuItem::Settings,
                MenuItem::Settings,
                MenuItem::Home,
            ],
            exited: false,
        }
    );
}

#[test]
fn event_loop_ignores_what_follows_the_exit_key() {
    let session = event_loop(&vec![press('c'), Event::Tick, press('Q'), press('q'), press('Q')]);
    assert_eq!(
        session,
        Session { frames: vec![MenuItem::Home, MenuItem::Chart, MenuItem::Chart], exited: true }
    );
}

#[test]
fn timeout_is_what_is_left_of_the_interval() {
    let source = EventSource::new(200, 1000);
    assert_eq!(source, EventSource { tick_rate: 200, last_tick: 1000 });
    assert_eq!(source.timeout(1000), 200);
    assert_eq!(source.timeout(1050), 150);
    assert_eq!(source.timeout(1199), 1);
    assert_eq!(source.timeout(1200), 0);
    assert_eq!(source.timeout(5000), 0);
    assert_eq!(source.timeout(999), 200);
    assert_eq!(TICK_RATE_MS, 200);
}

#[test]
fn key_is_delivered_at_once_and_before_the_tick() {
    let mut source = EventSource::new(200, 0);
    assert_eq!(source.emit(Some('q'), 50, false), vec![Event::Input('q')]);
    assert_eq!(source.last_tick, 0);
    assert_eq!(source.emit(Some('c'), 200, false), vec![Event::Input('c'), Event::Tick]);
    assert_eq!(source.last_tick, 200);
}

#[test]
fn tick_comes_when_the_interval_has_run_out() {
    let mut source = EventSource::new(200, 0);
    assert_eq!(source.emit(None::<Key>, 199, false), vec![]);
    assert_eq!(source.last_tick, 0);
    assert_eq!(source.emit(None::<Key>, 200, false), vec![Event::Tick]);
    assert_eq!(source.last_tick, 200);
    assert_eq!(source.emit(None::<Key>, 399, false), vec![]);
    assert_eq!(source.emit(None::<Key>, 450, false), vec![Event::Tick]);
    assert_eq!(source.last_tick, 450);
}

#[test]
fn pending_tick_is_skipped_not_queued() {
    let mut source = EventSource::new(200, 0);
    assert_eq!(source.emit(None::<Key>, 200, false), vec![Event::Tick]);
    assert_eq!(source.emit(None::<Key>, 400, true), vec![]);
    assert_eq!(source.last_tick, 400);
    assert_eq!(source.timeout(400), 200);
    assert_eq!(source.emit(None::<Key>, 600, true), vec![]);
    assert_eq!(source.emit(Some(Key::Char('q')), 800, true), vec![press('q')]);
    assert_eq!(source.emit(None::<Key>, 1000, false), vec![Event::Tick]);
}

#[test]
fn clock_that_runs_backwards_counts_as_no_time_passed() {
    let mut source = EventSource::new(200, 1000);
    assert_eq!(source.emit(None::<Key>, 10, false), vec![]);
    assert_eq!(source.last_tick, 1000);
}

#[test]
fn zero_interval_ticks_every_round() {
    let mut source = EventSource::new(0, 0);
    assert_eq!(source.timeout(0), 0);
    assert_eq!(source.emit(None::<Key>, 0, false), vec![Event::Tick]);
    assert_eq!(source.emit(None::<Key>, 0, false), vec![Event::Tick]);
}

#[test]
fn idle_second_emits_between_four_and_six_ticks() {
    let mut source = EventSource::new(TICK_RATE_MS, 0);
    let mut now: u64 = 0;
    let mut ticks = 0;
    loop {
        now += source.timeout(now);
        if now > 1000 {
            break;
        }
        let events = source.emit(None::<Key>, now, false);
        ticks += events.iter().filter(|event| matches!(event, Event::Tick)).count();
    }
    assert!(ticks >= 4 && ticks <= 6, "{ticks} ticks");
    assert_eq!(ticks, 5);
}

#[test]
fn idle_second_with_late_wakeups_still_emits_four_ticks() {
    let mut source = EventSource::new(TICK_RATE_MS, 0);
    let mut now: u64 = 0;
    let mut ticks = 0;
    loop {
        now += source.timeout(now) + 40;
        if now > 1000 {
            break;
        }
        let events = source.emit(None::<Key>, now, false);
        ticks += events.iter().filter(|event| matches!(event, Event::Tick)).count();
    }
    assert_eq!(ticks, 4);
}

#[test]
fn menu_item_converts_to_its_index() {
    assert_eq!(usize::from(MenuItem::Home), 0);
    assert_eq!(usize::from(MenuItem::Query), 1);
    assert_eq!(usize::from(MenuItem::Chart), 2);
    assert_eq!(usize::from(MenuItem::Settings), 3);
}

#[test]
fn home_panel_welcomes() {
    let panel = home();
    assert_eq!(panel.title, "Home");
    assert!(panel.centered);
    assert_eq!(
        texts(&panel),
        vec![
            "",
            "",
            "Welcome",
            "to",
            "",
            "pet-CLI",
            "",
            "Press 'p' to access pets, 'a' to add random new pets and 'd' to delete the currently selected pet.",
        ]
    );
    assert_eq!(panel.color, Color::White);
    let colors: Vec<Option<Color>> = panel.lines.iter().map(|line| line.color).collect();
    assert_eq!(
        colors,
        vec![None, None, None, None, None, Some(Color::LightBlue), None, None]
    );
}

#[test]
fn placeholder_panels_hold_one_line() {
    for (panel, text) in [
        (query(), "type query here"),
        (chart(), "data chart goes here"),
        (settings(), "settings go here"),
        (status(), "current status goes here"),
    ] {
        assert_eq!(panel.title, "Home");
        assert!(!panel.centered);
        assert_eq!(texts(&panel), vec![text]);
        assert_eq!(panel.color, Color::White);
        assert_eq!(panel.lines[0].color, None);
    }
}

#[test]
fn panel_is_chosen_by_the_active_item() {
    assert_eq!(panel(MenuItem::Home), home());
    assert_eq!(panel(MenuItem::Query), query());
    assert_eq!(panel(MenuItem::Chart), chart());
    assert_eq!(panel(MenuItem::Settings), settings());
}

#[test]
fn menu_splits_each_title_at_its_hotkey() {
    let bar = menu(MenuItem::Chart);
    assert_eq!(bar.title, "Menu");
    assert_eq!(bar.divider, "|");
    assert_eq!(bar.selected, 2);
    assert_eq!(bar.color, Color::White);
    assert_eq!(bar.highlight, Color::Yellow);
    let entries: Vec<(String, String)> =
        bar.entries.iter().map(|entry| (entry.hotkey.clone(), entry.rest.clone())).collect();
    assert_eq!(
        entries,
        vec![
            ("H".to_string(), "ome".to_string()),
            ("q".to_string(), "uery".to_string()),
            ("c".to_string(), "hart".to_string()),
            ("s".to_string(), "ettings".to_string()),
            ("Q".to_string(), "uit".to_string()),
        ]
    );
    assert_eq!(menu(MenuItem::Home).selected, 0);
    assert_eq!(menu(MenuItem::Query).selected, 1);
    assert_eq!(menu(MenuItem::Settings).selected, 3);
}

#[test]
fn layout_splits_the_terminal_into_three_rows() {
    assert_eq!(
        layout(region(0, 0, 80, 24)),
        vec![region(2, 2, 76, 3), region(2, 5, 76, 14), region(2, 19, 76, 3)]
    );
    assert_eq!(
        layout(region(10, 5, 100, 40)),
        vec![region(12, 7, 96, 3), region(12, 10, 96, 30), region(12, 40, 96, 3)]
    );
}

#[test]
fn layout_of_a_tiny_terminal_still_has_three_rows() {
    assert_eq!(layout(region(0, 0, 3, 3)).len(), 3);
    assert_eq!(layout(region(0, 0, 0, 0)).len(), 3);
    assert_eq!(layout(region(0, 0, 80, 6)).len(), 3);
    assert_eq!(layout(region(0, 0, 4, 4)).len(), 3);
    assert_eq!(layout(region(65535, 65535, 0, 0)).len(), 3);
}

#[test]
fn layout_reaches_the_edge_of_the_coordinate_space() {
    assert!(region(65455, 65511, 80, 24).is_in_bounds());
    assert_eq!(
        layout(region(65455, 65511, 80, 24)),
        vec![
            region(65457, 65513, 76, 3),
            region(65457, 65516, 76, 14),
            region(65457, 65530, 76, 3),
        ]
    );
}

#[test]
fn region_beyond_the_coordinate_space_is_out_of_bounds() {
    assert!(region(0, 0, 80, 24).is_in_bounds());
    assert!(region(0, 0, 65535, 65535).is_in_bounds());
    assert!(region(65535, 65535, 0, 0).is_in_bounds());
    assert!(!region(65533, 0, 80, 24).is_in_bounds());
    assert!(!region(0, 65535, 4, 1).is_in_bounds());
    assert!(!region(1, 0, 65535, 0).is_in_bounds());
}

#[test]
fn arrange_puts_menu_panel_and_status_in_their_rows() {
    let rows = vec![region(2, 2, 76, 3), region(2, 5, 76, 14), region(2, 19, 76, 3)];
    let frame = arrange(MenuItem::Query, &rows);
    assert_eq!(frame.menu, menu(MenuItem::Query));
    assert_eq!(frame.menu_area, rows[0]);
    assert_eq!(frame.panel, query());
    assert_eq!(frame.panel_area, rows[1]);
    assert_eq!(frame.status, status());
    assert_eq!(frame.status_area, rows[2]);
}

#[test]
fn render_shows_the_active_panel() {
    let frame = render(MenuItem::Settings, region(0, 0, 80, 24));
    assert_eq!(frame.menu.selected, 3);
    assert_eq!(frame.panel, settings());
    assert_eq!(frame.status, status());
    assert_eq!(frame.menu_area, region(2, 2, 76, 3));
    assert_eq!(frame.panel_area, region(2, 5, 76, 14));
    assert_eq!(frame.status_area, region(2, 19, 76, 3));
}

#[test]
fn setup_error_is_fatal() {
    let mut ui = Ui::new();
    assert_eq!(
        ui.on_terminal_error(Stage::Setup, "not a terminal".to_string()),
        Err(Error::Terminal("not a terminal".to_string()))
    );
    assert!(!ui.is_running());
    assert_eq!(ui.active(), MenuItem::Home);
    assert_eq!(
        Error::Terminal("not a terminal".to_string()).diagnostic(),
        "TerminalError: not a terminal"
    );
}

#[test]
fn frame_error_is_retried_on_the_next_pass() {
    let mut ui = Ui::new();
    ui.on_event(&press('c'));
    assert_eq!(ui.on_terminal_error(Stage::Frame, "broken pipe".to_string()), Ok(Action::Render));
    assert!(ui.is_running());
    assert_eq!(ui.active(), MenuItem::Chart);
    ui.on_event(&press('Q'));
    assert_eq!(ui.on_terminal_error(Stage::Frame, "broken pipe".to_string()), Ok(Action::Exit));
    assert!(!ui.is_running());
}

fn inside(area: Region) -> Region {
    if area.width < 4 || area.height < 4 {
        region(0, 0, 0, 0)
    } else {
        region(area.x + 2, area.y + 2, area.width - 4, area.height - 4)
    }
}

#[test]
fn layout_at_the_least_roomy_height() {
    assert_eq!(
        layout(region(0, 0, 80, 12)),
        vec![region(2, 2, 76, 3), region(2, 5, 76, 2), region(2, 7, 76, 3)]
    );
    assert_eq!(
        layout(region(0, 0, 4, 12)),
        vec![region(2, 2, 0, 3), region(2, 5, 0, 2), region(2, 7, 0, 3)]
    );
}

#[test]
fn roomy_terminal_gives_menu_and_status_their_heights() {
    for (x, y) in [(0u16, 0u16), (3, 7), (1000, 2000)] {
        for width in [4u16, 5, 40, 80, 200] {
            for height in 12u16..70 {
                let area = region(x, y, width, height);
                let inner = inside(area);
                assert_eq!(
                    layout(area),
                    vec![
                        region(inner.x, inner.y, inner.width, 3),
                        region(inner.x, inner.y + 3, inner.width, inner.height - 6),
                        region(inner.x, inner.y + inner.height - 3, inner.width, 3),
                    ],
                    "{area:?}"
                );
            }
        }
    }
}

#[test]
fn status_line_ends_where_the_inside_ends() {
    for (x, y) in [(0u16, 0u16), (5, 9)] {
        for width in [0u16, 3, 4, 80] {
            for height in 0u16..14 {
                let area = region(x, y, width, height);
                let inner = inside(area);
                let rows = layout(area);
                assert_eq!(rows.len(), 3, "{area:?}");
                assert_eq!(rows[2].y + rows[2].height, inner.y + inner.height, "{area:?}");
            }
        }
    }
}

#[test]
fn render_places_the_rows_of_a_roomy_terminal() {
    let frame = render(MenuItem::Home, region(0, 0, 120, 40));
    assert_eq!(frame.menu_area, region(2, 2, 116, 3));
    assert_eq!(frame.panel_area, region(2, 5, 116, 30));
    assert_eq!(frame.status_area, region(2, 35, 116, 3));
    let frame = render(MenuItem::Chart, region(0, 0, 10, 5));
    assert_eq!(frame.status_area.y + frame.status_area.height, 3);
}

fn idle(now: u64) -> Round {
    Round { key: None, now }
}

fn keyed(c: char, now: u64) -> Round {
    Round { key: Some(Key::Char(c)), now }
}

#[test]
fn pump_delivers_five_ticks_in_an_idle_second() {
    let mut source = EventSource::new(TICK_RATE_MS, 0);
    let rounds: Vec<Round> = [200, 400, 600, 800, 1000].iter().map(|now| idle(*now)).collect();
    let events = source.pump(&rounds);
    assert_eq!(events, vec![Event::Tick; 5]);
    assert!(events.len() >= 4 && events.len() <= 6);
    assert_eq!(source.last_tick, 1000);
}

#[test]
fn pump_delivers_four_ticks_when_every_round_is_late() {
    let mut source = EventSource::new(TICK_RATE_MS, 0);
    let rounds: Vec<Round> = [250, 500, 750, 1000].iter().map(|now| idle(*now)).collect();
    assert_eq!(source.pump(&rounds), vec![Event::Tick; 4]);
    assert_eq!(source.last_tick, 1000);
}

#[test]
fn pump_delivers_keys_at_once_and_ticks_on_time() {
    let mut source = EventSource::new(200, 0);
    let rounds = vec![keyed('q', 50), keyed('c', 120), idle(200), keyed('s', 400), idle(450)];
    assert_eq!(
        source.pump(&rounds),
        vec![press('q'), press('c'), Event::Tick, press('s'), Event::Tick]
    );
    assert_eq!(source.last_tick, 400);
    assert_eq!(source.pump(&vec![]), vec![]);
    assert_eq!(source.last_tick, 400);
}

#[test]
fn run_feeds_the_loop_from_the_event_source() {
    let mut source = EventSource::new(200, 0);
    let rounds = vec![idle(200), keyed('q', 300), idle(400), keyed('Q', 450), keyed('H', 500)];
    let session = run(&mut source, &rounds);
    assert_eq!(
        session,
        Session {
            frames: vec![MenuItem::Home, MenuItem::Home, MenuItem::Query, MenuItem::Query],
            exited: true,
        }
    );
    assert_eq!(source.last_tick, 400);
}

#[test]
fn run_over_an_idle_second_only_redraws() {
    let mut source = EventSource::new(TICK_RATE_MS, 0);
    let rounds: Vec<Round> = [200, 400, 600, 800, 1000].iter().map(|now| idle(*now)).collect();
    let session = run(&mut source, &rounds);
    assert_eq!(session, Session { frames: vec![MenuItem::Home; 6], exited: false });
}
