use cmux_linux::actions::{key_step, terminal_key_step, AppAction, KeyStep, TerminalKeyStep};
use cmux_linux::capabilities::{
    linux_v1_capabilities, merged_capability_profile, terminal_backend_status,
};
use cmux_linux::config::{
    config_path, configured_session_path, configured_socket_path, path_below, ColorScheme, Config,
};
use cmux_linux::display::{
    banner_text, collect_sidebar_rows, content_step, extract_path_from_title, file_name,
    layout_fingerprint, missing_pane_label, short_id, smart_display_title, surface_tab_label,
    ContentStep,
};
use cmux_linux::doubles::{difference, excess, half, sum, EPSILON, LIMIT, ONE};
use cmux_linux::host::{
    begin_write, continue_write, login_shell_argv, normalize_terminal_input, stale_ids, InputQueue,
    WriteEvent, WriteStep,
};
use cmux_linux::ids::{not_found, unless_nil, Drawn, NIL};
use cmux_linux::json::{Number, Value};
use cmux_linux::keys::{
    translate_ctrl_key, translate_meta_key, translate_named_key, translate_terminal_key,
};
use cmux_linux::layout::{FocusDirection, SplitOrientation, WorkspaceLayout};
use cmux_linux::methods::{
    advertised_methods, answered_methods, browser_methods, comes_before, merge_names,
};
use cmux_linux::palette_search::{
    palette_fit_score, palette_match_score, palette_normalize, palette_score_terms,
    palette_subsequence_score,
};
use cmux_linux::params::parse_number;
use cmux_linux::shortcuts::{format_shortcut_hint, set_override, shortcut_hint, ShortcutOverride};
use cmux_linux::state::AppState;
use cmux_linux::surface::TerminalHealth;
use cmux_linux::watch::Watch;

const WINDOW: u128 = 0x11111111_0000_4000_8000_000000000001;
const WORKSPACE: u128 = 0x22222222_0000_4000_8000_000000000002;
const PANE: u128 = 0x33333333_0000_4000_8000_000000000003;
const SURFACE: u128 = 0x44444444_0000_4000_8000_000000000004;
const NOTIFICATION: u128 = 0x55555555_0000_4000_8000_000000000005;

fn drawn() -> Drawn {
    Drawn {
        window: WINDOW,
        workspace: WORKSPACE,
        pane: PANE,
        surface: SURFACE,
        notification: NOTIFICATION,
    }
}

fn later(by: u128) -> Drawn {
    Drawn {
        window: WINDOW + (by << 96),
        workspace: WORKSPACE + (by << 96),
        pane: PANE + (by << 96),
        surface: SURFACE + (by << 96),
        notification: NOTIFICATION + (by << 96),
    }
}

fn some(content: &str) -> Option<String> {
    Some(content.to_string())
}

#[test]
fn titles_of_terminals_are_shortened() {
    assert_eq!(smart_display_title("user@hostname: /long/path/to/dir"), "dir");
    assert_eq!(smart_display_title("user@hostname:/long/path"), "path");
    assert_eq!(smart_display_title("zsh: ~/projects"), "projects");
    assert_eq!(smart_display_title("/home/user/Desktop"), "Desktop");
    assert_eq!(smart_display_title("vim file.txt"), "vim file.txt");
    assert_eq!(smart_display_title("htop"), "htop");
    assert_eq!(smart_display_title("~"), "~");
    assert_eq!(smart_display_title("/"), "/");
    assert_eq!(smart_display_title("   "), "Terminal");
    assert_eq!(smart_display_title(""), "Terminal");
    assert_eq!(smart_display_title("  /a/b/  "), "b");
}

#[test]
fn prefixes_of_titles_are_recognised() {
    assert_eq!(extract_path_from_title("user@host: /path"), "/path");
    assert_eq!(extract_path_from_title("bash:/srv"), "/srv");
    assert_eq!(extract_path_from_title("longprefix:/srv"), "longprefix:/srv");
    assert_eq!(extract_path_from_title("me@longprefix:/srv"), "/srv");
    assert_eq!(extract_path_from_title("error: no such file"), "error: no such file");
}

#[test]
fn last_part_of_a_path_is_its_name() {
    assert_eq!(file_name("/home/user"), some("user"));
    assert_eq!(file_name("/home/user/"), some("user"));
    assert_eq!(file_name("/home/user/."), some("user"));
    assert_eq!(file_name("user"), some("user"));
    assert_eq!(file_name("/"), None);
    assert_eq!(file_name(""), None);
    assert_eq!(file_name("/home/.."), None);
}

#[test]
fn tab_labels_show_news_and_flashes() {
    let mut state = AppState::new_with_ids(drawn());
    let surface = &mut state.workspaces[0].panes[0].surfaces[0];
    surface.title = "me@box: /srv/www".to_string();
    assert_eq!(surface_tab_label(surface), "www");
    surface.unread = true;
    assert_eq!(surface_tab_label(surface), "www •");
    surface.flash_count = 12;
    assert_eq!(surface_tab_label(surface), "www • (12)");
}

#[test]
fn short_identifiers_have_eight_digits() {
    assert_eq!(short_id(WINDOW), "11111111");
    assert_eq!(short_id(1), "00000000");
    assert_eq!(missing_pane_label(0xdeadbeef_0000_4000_8000_000000000001), "Missing pane deadbeef");
}

#[test]
fn window_titles_are_numbered_where_there_are_several() {
    let mut state = AppState::new_with_ids(drawn());
    assert_eq!(state.window_title(0), "Workspace 1 — cmux");
    state.create_window_with_ids(later(1), true);
    assert_eq!(state.window_title(0), "Workspace 1 — cmux (1)");
    assert_eq!(state.window_title(1), "Workspace 2 — cmux (2)");
    state.windows[1].selected_workspace_id = NIL;
    assert_eq!(state.window_title(1), "cmux — cmux (2)");
}

#[test]
fn sidebar_counts_tabs_and_news() {
    let mut state = AppState::new_with_ids(drawn());
    let rows = collect_sidebar_rows(&state, WINDOW);
    assert_eq!(rows.len(), 1);
    assert_eq!(rows[0].workspace_id, WORKSPACE);
    assert_eq!(rows[0].title, "Workspace 1");
    assert_eq!(rows[0].meta, "");
    assert!(rows[0].selected);

    state.create_selected_surface_with_ids(later(1)).expect("surface");
    state.workspaces[0].panes[0].surfaces[0].unread = true;
    state.workspaces[0].current_directory = some("/srv/www");
    state.create_workspace_with_ids(later(2), WINDOW, true, None);
    let rows = collect_sidebar_rows(&state, WINDOW);
    assert_eq!(rows.len(), 2);
    assert_eq!(rows[0].meta, "2 tabs · 1 unread · www");
    assert!(!rows[0].selected);
    assert_eq!(rows[1].meta, "");
    assert!(rows[1].selected);
    assert!(collect_sidebar_rows(&state, 7).is_empty());
}

#[test]
fn fingerprint_follows_the_layout() {
    let mut state = AppState::new_with_ids(drawn());
    assert_eq!(layout_fingerprint(&state.workspaces[0]), "P33333333[44444444]");
    state
        .split_workspace_pane(later(1), WORKSPACE, None, SplitOrientation::Vertical, true, true)
        .expect("pane");
    assert_eq!(
        layout_fingerprint(&state.workspaces[0]),
        "SV(|P33333334[44444445]|,|P33333333[44444444]|)"
    );
}

#[test]
fn content_is_built_only_when_its_shape_changed() {
    assert_eq!(content_step(Some(1), None, &None, "x"), ContentStep::Clear);
    assert_eq!(content_step(Some(1), Some(1), &None, "x"), ContentStep::Build);
    assert_eq!(content_step(Some(1), Some(1), &some("y"), "x"), ContentStep::Build);
    assert_eq!(content_step(Some(1), Some(1), &some("x"), "x"), ContentStep::Update);
    assert_eq!(content_step(Some(2), Some(1), &some("x"), "x"), ContentStep::Attach);
}

#[test]
fn banner_names_the_platform() {
    assert_eq!(
        banner_text("socket=/tmp/x"),
        "platform=linux frontend=gtk4-libadwaita browser=false window_multi=true \
         terminal_backend=vte features=terminal,workspace,pane,surface,notification,\
         session_restore,window_multi,debug socket=/tmp/x"
    );
}

#[test]
fn paths_follow_the_environment() {
    assert_eq!(path_below("/a", "b"), "/a/b");
    assert_eq!(path_below("/a/", "b"), "/a/b");
    assert_eq!(path_below("", "b"), "b");
    assert_eq!(config_path(&some("/c"), &some("/h")), "/c/cmux/config.toml");
    assert_eq!(config_path(&None, &some("/h")), "/h/.config/cmux/config.toml");
    assert_eq!(config_path(&None, &None), "/tmp/cmux-config.toml");
    assert_eq!(configured_session_path(&some("/f"), &some("/s"), &some("/h")), "/f");
    assert_eq!(
        configured_session_path(&None, &some("/s"), &some("/h")),
        "/s/cmux/cmux-linux-session.json"
    );
    assert_eq!(
        configured_session_path(&None, &None, &some("/h")),
        "/h/.local/state/cmux/cmux-linux-session.json"
    );
    assert_eq!(
        configured_session_path(&None, &None, &None),
        "/tmp/cmux/cmux-linux-session.json"
    );
    assert_eq!(configured_socket_path(&some("/a"), &some("/b")), "/a");
    assert_eq!(configured_socket_path(&some("  "), &some("/b")), "/b");
    assert_eq!(configured_socket_path(&None, &some("")), "/tmp/cmux-linux.sock");
}

#[test]
fn settings_have_defaults() {
    let config = Config::default();
    assert_eq!(config.socket_path, None);
    assert_eq!(config.scrollback_lines, 20_000);
    assert_eq!(config.sidebar_width, 280);
    assert_eq!(config.color_scheme, ColorScheme::System);
    assert_eq!(config.font_description(), "Monospace 12");
}

#[test]
fn shells_that_know_the_option_start_as_login_shells() {
    assert_eq!(login_shell_argv(some("/usr/bin/zsh")), vec!["/usr/bin/zsh", "-l"]);
    assert_eq!(login_shell_argv(some("/usr/bin/nu")), vec!["/usr/bin/nu"]);
    assert_eq!(login_shell_argv(None), vec!["/bin/bash", "-l"]);
}

#[test]
fn ends_of_lines_become_carriage_returns() {
    assert_eq!(normalize_terminal_input("ls\n"), b"ls\r".to_vec());
    assert_eq!(normalize_terminal_input("ü\r\n"), vec![0xc3, 0xbc, 13, 13]);
}

#[test]
fn input_waits_until_the_terminal_is_ready() {
    let mut queue = InputQueue::new();
    assert_eq!(queue.write_input("a\n"), None);
    assert_eq!(queue.write_input("b"), None);
    assert_eq!(queue.become_ready(), vec![b"a\r".to_vec(), b"b".to_vec()]);
    assert_eq!(queue.write_input("c"), Some(b"c".to_vec()));
    assert!(queue.become_ready().is_empty());
}

#[test]
fn writing_goes_on_until_all_is_written() {
    assert_eq!(begin_write(0), WriteStep::Done);
    assert_eq!(begin_write(5), WriteStep::WriteFrom(0));
    assert_eq!(continue_write(0, 5, WriteEvent::Wrote(3)), WriteStep::WriteFrom(3));
    assert_eq!(continue_write(3, 5, WriteEvent::Interrupted), WriteStep::WriteFrom(3));
    assert_eq!(continue_write(3, 5, WriteEvent::Wrote(2)), WriteStep::Done);
    assert_eq!(continue_write(3, 5, WriteEvent::Failed), WriteStep::GiveUp);
}

#[test]
fn health_follows_the_process() {
    let running = TerminalHealth::running(17);
    assert_eq!(running.child_pid, Some(17));
    assert!(running.realized && !running.child_exited);
    let ended = TerminalHealth::ended(Some(17), 3);
    assert!(ended.child_exited);
    assert_eq!(ended.child_exit_code, Some(3));
    let failed = TerminalHealth::failed("no shell");
    assert_eq!(failed.startup_error, some("failed to spawn terminal process: no shell"));
    assert!(!TerminalHealth::starting().child_exited);
    assert_eq!(TerminalHealth::on_screen().child_pid, None);
}

#[test]
fn terminals_without_surface_are_stale() {
    assert_eq!(stale_ids(&vec![1, 2, 3, 2], &vec![3, 1]), vec![2, 2]);
    assert!(stale_ids(&vec![], &vec![3, 1]).is_empty());
}

#[test]
fn identifiers_are_written_with_hyphens() {
    assert_eq!(
        not_found("pane", PANE),
        "pane 33333333-0000-4000-8000-000000000003 not found"
    );
    assert_eq!(Value::id(1).as_str(), Some("00000000-0000-0000-0000-000000000001"));
    assert_eq!(unless_nil(NIL), None);
    assert_eq!(unless_nil(4), Some(4));
}

#[test]
fn drawn_identifiers_differ() {
    let first = Drawn::draw();
    let second = Drawn::draw();
    let all = [
        first.window,
        first.workspace,
        first.pane,
        first.surface,
        first.notification,
        second.window,
        second.workspace,
        second.pane,
        second.surface,
        second.notification,
    ];
    for (at, id) in all.iter().enumerate() {
        assert_ne!(*id, NIL);
        assert!(!all[..at].contains(id));
    }
}

fn pseudorandom(seed: &mut u64) -> u64 {
    *seed ^= *seed << 13;
    *seed ^= *seed >> 7;
    *seed ^= *seed << 17;
    *seed
}

#[test]
fn doubles_are_rounded_to_the_nearest() {
    assert_eq!(f64::from_bits(ONE), 1.0);
    assert_eq!(f64::from_bits(EPSILON), f64::EPSILON);
    assert_eq!(f64::from_bits(LIMIT), 18014398509481984.0);
    let mut small: Vec<u64> = vec![0, 1, 2, 3, EPSILON, EPSILON - 1, EPSILON / 2, ONE - 1, ONE];
    small.push(f64::MIN_POSITIVE.to_bits());
    small.push(f64::MIN_POSITIVE.to_bits() + 1);
    small.push((f64::EPSILON / 2.0).to_bits());
    let mut large: Vec<u64> = vec![ONE + 1, LIMIT - 1, LIMIT, 3.0f64.to_bits()];
    let mut seed: u64 = 88172645463325252;
    for _ in 0..200 {
        small.push(pseudorandom(&mut seed) % (ONE + 1));
        small.push(ONE - pseudorandom(&mut seed) % (1 << 56));
        large.push(pseudorandom(&mut seed) % (LIMIT + 1));
        large.push(ONE + pseudorandom(&mut seed) % (1 << 56));
    }
    large.extend(small.iter().copied());
    for left in &large {
        let one = f64::from_bits(*left);
        assert_eq!(half(*left), (one / 2.0).to_bits());
        for right in &small {
            let other = f64::from_bits(*right);
            assert_eq!(sum(*left, *right), (one + other).to_bits(), "{one:e} + {other:e}");
            assert_eq!(difference(*left, *right), (one - other).abs().to_bits());
            assert_eq!(difference(*right, *left), (one - other).abs().to_bits());
            assert_eq!(excess(*left, *right), (one - other).max(0.0).to_bits());
        }
    }
}

#[test]
fn numbers_are_told_by_their_bits() {
    assert!(matches!(Value::float(ONE), Value::Number(Number::Float(bits)) if bits == ONE));
}

fn nested(count: u128, orientation: SplitOrientation, in_second: bool) -> WorkspaceLayout {
    let mut layout = WorkspaceLayout::Pane(count);
    for id in (0..count).rev() {
        let leaf = Box::new(WorkspaceLayout::Pane(id));
        let rest = Box::new(layout);
        let (first, second) = if in_second { (leaf, rest) } else { (rest, leaf) };
        layout = WorkspaceLayout::Split { orientation, first, second };
    }
    layout
}

type Area = (u128, f64, f64, f64, f64);

fn areas(layout: &WorkspaceLayout, x: f64, y: f64, width: f64, height: f64) -> Vec<Area> {
    match layout {
        WorkspaceLayout::Pane(id) => vec![(*id, x, y, width, height)],
        WorkspaceLayout::Split { orientation, first, second } => {
            let mut all;
            if *orientation == SplitOrientation::Horizontal {
                let share = width / 2.0;
                all = areas(first, x, y, share, height);
                all.extend(areas(second, x + share, y, width - share, height));
            } else {
                let share = height / 2.0;
                all = areas(first, x, y, width, share);
                all.extend(areas(second, x, y + share, width, height - share));
            }
            all
        }
    }
}

fn shared(low_a: f64, length_a: f64, low_b: f64, length_b: f64) -> f64 {
    ((low_a + length_a).min(low_b + length_b) - low_a.max(low_b)).max(0.0)
}

fn neighbour(all: &[Area], at: usize, direction: FocusDirection) -> Option<u128> {
    let here = all[at];
    let mut best: Option<(u128, f64, f64, f64)> = None;
    for there in all {
        if there.0 == here.0 {
            continue;
        }
        let (mx, my) = (here.1 + here.3 / 2.0, here.2 + here.4 / 2.0);
        let (ox, oy) = (there.1 + there.3 / 2.0, there.2 + there.4 / 2.0);
        let (lies, gap) = match direction {
            FocusDirection::Left => (ox < mx, here.1 - (there.1 + there.3)),
            FocusDirection::Right => (ox > mx, there.1 - (here.1 + here.3)),
            FocusDirection::Up => (oy < my, here.2 - (there.2 + there.4)),
            FocusDirection::Down => (oy > my, there.2 - (here.2 + here.4)),
        };
        let sideways = matches!(direction, FocusDirection::Left | FocusDirection::Right);
        let (overlap, offset) = if sideways {
            (shared(here.2, here.4, there.2, there.4), (oy - my).abs())
        } else {
            (shared(here.1, here.3, there.1, there.3), (ox - mx).abs())
        };
        let gap = gap.max(0.0);
        let better = match best {
            None => true,
            Some((_, other_gap, other_offset, other_overlap)) => {
                overlap > other_overlap
                    || ((overlap - other_overlap).abs() < f64::EPSILON
                        && (gap < other_gap
                            || ((gap - other_gap).abs() < f64::EPSILON
                                && offset < other_offset)))
            }
        };
        if lies && better {
            best = Some((there.0, gap, offset, overlap));
        }
    }
    best.map(|found| found.0)
}

#[test]
fn deep_layouts_are_in_double_precision() {
    let mut layouts = Vec::new();
    for count in [1, 5, 52, 53, 54, 60, 120, 1100] {
        for orientation in [SplitOrientation::Horizontal, SplitOrientation::Vertical] {
            layouts.push(nested(count, orientation, true));
            layouts.push(nested(count, orientation, false));
        }
    }
    layouts.push(WorkspaceLayout::Split {
        orientation: SplitOrientation::Vertical,
        first: Box::new(nested(70, SplitOrientation::Horizontal, false)),
        second: Box::new(WorkspaceLayout::Split {
            orientation: SplitOrientation::Horizontal,
            first: Box::new(WorkspaceLayout::Pane(900)),
            second: Box::new(WorkspaceLayout::Pane(901)),
        }),
    });
    for layout in &layouts {
        let expected = areas(layout, 0.0, 0.0, 1.0, 1.0);
        let told: Vec<Area> = layout
            .pane_regions()
            .iter()
            .map(|region| {
                (
                    region.pane_id,
                    f64::from_bits(region.x),
                    f64::from_bits(region.y),
                    f64::from_bits(region.width),
                    f64::from_bits(region.height),
                )
            })
            .collect();
        assert_eq!(told, expected);
        if expected.len() > 130 {
            continue;
        }
        for at in 0..expected.len() {
            for direction in [
                FocusDirection::Left,
                FocusDirection::Right,
                FocusDirection::Up,
                FocusDirection::Down,
            ] {
                assert_eq!(
                    layout.adjacent_pane(expected[at].0, direction),
                    neighbour(&expected, at, direction)
                );
            }
        }
    }
    let thin = nested(60, SplitOrientation::Horizontal, false).pane_regions();
    assert_eq!(f64::from_bits(thin[0].width), 0.5f64.powi(60));
}

#[test]
fn halves_of_a_split_are_regions() {
    let layout = WorkspaceLayout::Split {
        orientation: SplitOrientation::Horizontal,
        first: Box::new(WorkspaceLayout::Pane(1)),
        second: Box::new(WorkspaceLayout::Split {
            orientation: SplitOrientation::Vertical,
            first: Box::new(WorkspaceLayout::Pane(2)),
            second: Box::new(WorkspaceLayout::Pane(3)),
        }),
    };
    let middle = 0.5f64.to_bits();
    let regions = layout.pane_regions();
    let boxes: Vec<(u128, u64, u64, u64, u64)> = regions
        .iter()
        .map(|region| (region.pane_id, region.x, region.y, region.width, region.height))
        .collect();
    assert_eq!(
        boxes,
        vec![
            (1, 0, 0, middle, ONE),
            (2, middle, 0, middle, middle),
            (3, middle, middle, middle, middle),
        ]
    );
    assert_eq!(layout.adjacent_pane(2, FocusDirection::Down), Some(3));
    assert_eq!(layout.adjacent_pane(3, FocusDirection::Up), Some(2));
    assert_eq!(layout.adjacent_pane(3, FocusDirection::Left), Some(1));
    assert_eq!(layout.adjacent_pane(1, FocusDirection::Left), None);
    assert_eq!(layout.adjacent_pane(9, FocusDirection::Left), None);
}

#[test]
fn keys_run_actions() {
    assert_eq!(key_step("3", false, false, true), KeyStep::SelectWorkspace(2));
    assert_eq!(key_step("0", false, false, true), KeyStep::Proceed);
    assert_eq!(key_step("d", true, false, false), KeyStep::Run(AppAction::SplitRight));
    assert_eq!(key_step("D", true, true, false), KeyStep::Run(AppAction::SplitDown));
    assert_eq!(key_step("w", true, false, false), KeyStep::Run(AppAction::SurfaceClose));
    assert_eq!(key_step("W", true, true, false), KeyStep::Run(AppAction::WorkspaceClose));
    assert_eq!(key_step("n", true, false, true), KeyStep::Run(AppAction::WindowNew));
    assert_eq!(key_step("Left", true, false, true), KeyStep::Run(AppAction::PaneFocusLeft));
    assert_eq!(key_step("Tab", true, false, false), KeyStep::Run(AppAction::SurfaceNext));
    assert_eq!(key_step("d", false, false, false), KeyStep::Proceed);
    assert_eq!(key_step("d", true, true, true), KeyStep::Proceed);
    assert_eq!(terminal_key_step("C", true, true), TerminalKeyStep::Copy);
    assert_eq!(terminal_key_step("V", true, true), TerminalKeyStep::Paste);
    assert_eq!(terminal_key_step("c", true, false), TerminalKeyStep::Proceed);
    assert_eq!(AppAction::PaneFocusDown.name(), "pane-focus-down");
}

#[test]
fn keys_become_sequences() {
    assert_eq!(translate_ctrl_key("ctrl-c"), some("\u{3}"));
    assert_eq!(translate_ctrl_key("ctrl-1"), None);
    assert_eq!(translate_meta_key("alt-x"), some("\u{1b}x"));
    assert_eq!(translate_named_key("enter"), Some("\r"));
    assert_eq!(translate_named_key("nothing"), None);
    assert_eq!(translate_terminal_key("ctrl-D").ok(), some("\u{4}"));
    assert_eq!(translate_terminal_key("up").ok(), some("\u{1b}[A"));
    assert!(translate_terminal_key("hyper-x").is_err());
}

#[test]
fn names_are_kept_in_order() {
    assert!(comes_before("pane.list", "window.list"));
    assert!(comes_before("pane", "pane.list"));
    assert!(!comes_before("pane", "pane"));
    assert_eq!(merge_names(&vec!["b", "a"], &vec!["c", "a"]), vec!["a", "b", "c"]);
    assert_eq!(answered_methods().len(), 81);
    for list in [advertised_methods(), linux_v1_capabilities().unsupported_methods] {
        assert!(list.windows(2).all(|pair| comes_before(pair[0], pair[1])));
    }
    assert!(browser_methods().iter().all(|name| name.starts_with("browser.")));
}

#[test]
fn profile_is_that_of_the_terminal_frontend() {
    let profile = merged_capability_profile();
    assert_eq!(profile.platform.id, "linux");
    assert_eq!(profile.platform.frontend, "gtk4-libadwaita");
    assert!(profile.platform.window_multi);
    assert!(!profile.features.browser);
    assert_eq!(profile.unsupported_methods.len(), browser_methods().len());
    assert!(profile.unsupported_methods.contains(&"browser.navigate"));
    assert_eq!(linux_v1_capabilities().unsupported_methods.len(), 9);
    let status = terminal_backend_status();
    assert_eq!(status.active, "vte");
    assert_eq!(status.supported, vec!["vte"]);
    assert_eq!(status.requested, None);
    assert_eq!(status.note, None);
}

#[test]
fn words_are_normalised_for_the_search() {
    assert_eq!(palette_normalize("  New-Window: ÄB "), "new window b");
    assert_eq!(palette_normalize("Rename Tab…"), "rename tab");
    assert_eq!(palette_normalize("!!"), "");
    for text in ["  New-Window: ÄB ", "a  b", "\u{212a}elvin", "İx", "K9 - k9", ""] {
        let once = palette_normalize(text);
        assert_eq!(palette_normalize(&once), once);
        assert!(!once.starts_with(' ') && !once.ends_with(' ') && !once.contains("  "));
        assert!(once
            .chars()
            .all(|ch| ch.is_ascii_lowercase() || ch.is_ascii_digit() || ch == ' '));
        let lower: String = text.chars().flat_map(char::to_lowercase).collect();
        let letters: String = lower.chars().filter(char::is_ascii_alphanumeric).collect();
        assert_eq!(once.replace(' ', ""), letters);
    }
}

#[test]
fn lower_case_has_no_capital_letters() {
    for ch in '\0'..=char::MAX {
        assert!(ch.to_lowercase().all(|lower| !lower.is_ascii_uppercase()), "{ch:?}");
    }
}

#[test]
fn normalising_first_changes_no_score() {
    for (query, candidate) in [
        ("New Window", "new-window"),
        ("n W", "New Window"),
        ("wn", "New Window"),
        ("!", "anything"),
        ("xyz", "New Window"),
    ] {
        let words = palette_normalize(query);
        let content = palette_normalize(candidate);
        let score = palette_match_score(query, candidate);
        assert_eq!(palette_match_score(&words, &content), score);
        assert_eq!(palette_fit_score(&words, &content), score);
        let mut rest = content.chars().filter(|ch| *ch != ' ');
        let in_order =
            words.chars().filter(|ch| *ch != ' ').all(|ch| rest.any(|other| other == ch));
        assert_eq!(score.is_some(), in_order, "{query:?} in {candidate:?}");
    }
    assert_eq!(palette_fit_score("new", "new window"), Some(900 - 9));
    assert_eq!(palette_fit_score("", "new window"), Some(0));
}

#[test]
fn scores_rank_matches() {
    assert_eq!(palette_match_score("", "anything"), Some(0));
    assert_eq!(palette_match_score("New Window", "new-window"), Some(1000));
    assert_eq!(palette_match_score("new", "New Window"), Some(900 - 9));
    assert_eq!(palette_match_score("window", "New Window"), Some(800 - 3));
    assert_eq!(palette_match_score("nw", "New Window"), Some(500 + 15 + 9));
    assert_eq!(palette_match_score("xyz", "New Window"), None);
    let chars = |content: &str| content.chars().collect::<Vec<char>>();
    assert_eq!(palette_subsequence_score(&chars("nwd"), &chars("newwindow")), Some(15 + 9 + 7));
    assert_eq!(palette_subsequence_score(&chars("wn"), &chars("new")), None);
    let terms = vec!["New Window".to_string(), "Window".to_string()];
    assert_eq!(palette_score_terms("window", &terms), Some(1000));
}

#[test]
fn shortcuts_are_shown_with_signs() {
    assert_eq!(format_shortcut_hint("cmd+shift+n"), "\u{21e7}\u{2318}N");
    assert_eq!(format_shortcut_hint(" "), "");
    for combo in ["n+shift+cmd", "CMD+Shift+N", "meta + shift + n", "cmd+cmd+shift+command+n"] {
        assert_eq!(format_shortcut_hint(combo), "\u{21e7}\u{2318}N", "{combo}");
    }
    assert_eq!(format_shortcut_hint("k+opt+control"), format_shortcut_hint("ctrl+alt+option+K"));
    let mut list: Vec<ShortcutOverride> = Vec::new();
    assert_eq!(shortcut_hint(&list, "rename_tab"), "\u{2318}R");
    set_override(&mut list, "rename_tab", "ctrl+alt+k");
    assert_eq!(shortcut_hint(&list, "rename_tab"), "\u{2325}\u{2303}K");
    set_override(&mut list, "rename_tab", "CLEAR");
    assert_eq!(shortcut_hint(&list, "rename_tab"), "\u{2318}R");
}

#[test]
fn numbers_are_read_like_the_standard_library_does() {
    for content in ["0", "12", "+7", "007", "18446744073709551615", "18446744073709551616", "",
        "+", "-1", "1 ", "x"]
    {
        assert_eq!(parse_number(content), content.parse::<usize>().ok(), "{content:?}");
    }
}

#[test]
fn actions_have_keys() {
    assert_eq!(AppAction::SplitRight.accelerators(), vec!["<Primary>d"]);
    assert_eq!(
        AppAction::SurfaceNext.accelerators(),
        vec!["<Primary><Shift>bracketright", "<Primary>Tab", "<Primary>Page_Down"]
    );
}

#[test]
fn changes_are_drawn_and_saved_once() {
    let mut watch = Watch::new(4);
    assert!(!watch.look(4));
    assert!(!watch.save());
    assert!(watch.look(5));
    assert!(!watch.look(5));
    assert!(watch.save());
    assert!(!watch.save());
}
