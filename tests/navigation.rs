use devnews::model::Article;
use devnews::navigation::{App, Key, KeyPress};

fn articles(n: u64) -> Vec<Article> {
    (0..n)
        .map(|i| Article::new(i, format!("t{}", i), format!("a{}", i), format!("c{}", i)))
        .collect()
}

fn press(c: char) -> KeyPress {
    KeyPress { key: Key::Char(c), ctrl: false }
}

fn ctrl(c: char) -> KeyPress {
    KeyPress { key: Key::Char(c), ctrl: true }
}

#[test]
fn max_page_counts_front_then_groups_of_four() {
    assert_eq!(App::new(articles(0)).max_page(), 0);
    assert_eq!(App::new(articles(3)).max_page(), 0);
    assert_eq!(App::new(articles(4)).max_page(), 1);
    assert_eq!(App::new(articles(7)).max_page(), 1);
    assert_eq!(App::new(articles(8)).max_page(), 2);
    assert_eq!(App::new(articles(11)).max_page(), 2);
    assert_eq!(App::new(articles(27)).max_page(), 6);
}

#[test]
fn front_page_moves() {
    let mut app = App::new(articles(11));
    app.move_down();
    assert_eq!(app.selected_index(), 1);
    app.move_right();
    assert_eq!(app.selected_index(), 2);
    app.move_right();
    assert_eq!(app.selected_index(), 2);
    app.move_left();
    assert_eq!(app.selected_index(), 1);
    app.move_up();
    assert_eq!(app.selected_index(), 0);
    app.move_up();
    assert_eq!(app.selected_index(), 0);
}

#[test]
fn grid_page_moves_and_article_index() {
    let mut app = App::new(articles(11));
    app.next_page();
    assert_eq!(app.current_page(), 1);
    assert_eq!(app.get_selected_article_index(), 3);
    app.move_right();
    app.move_down();
    assert_eq!(app.selected_index(), 3);
    assert_eq!(app.get_selected_article_index(), 6);
    app.move_left();
    assert_eq!(app.selected_index(), 2);
    app.move_up();
    assert_eq!(app.selected_index(), 0);
    app.next_page();
    app.move_down();
    assert_eq!(app.get_selected_article_index(), 9);
    assert_eq!(app.selected_article().unwrap().id, 9);
}

#[test]
fn pages_stop_at_both_ends_and_reset_selection() {
    let mut app = App::new(articles(8));
    app.prev_page();
    assert_eq!(app.current_page(), 0);
    app.move_down();
    app.next_page();
    assert_eq!(app.current_page(), 1);
    assert_eq!(app.selected_index(), 0);
    app.next_page();
    assert_eq!(app.current_page(), 2);
    app.next_page();
    assert_eq!(app.current_page(), 2);
    app.move_down();
    assert!(app.selected_article().is_none());
    app.prev_page();
    assert_eq!(app.current_page(), 1);
    assert_eq!(app.selected_index(), 0);
}

#[test]
fn keys_open_scroll_and_close_an_article() {
    let mut app = App::new(articles(5));
    app.handle_key_event(press('j'));
    app.handle_key_event(KeyPress { key: Key::Enter, ctrl: false });
    assert!(app.viewing_article());
    assert_eq!(app.selected_article().unwrap().title, "t1");
    app.handle_key_event(press('d'));
    assert_eq!(app.scroll_offset(), 0);
    app.handle_key_event(ctrl('d'));
    app.handle_key_event(ctrl('d'));
    assert_eq!(app.scroll_offset(), 10);
    app.handle_key_event(ctrl('u'));
    assert_eq!(app.scroll_offset(), 5);
    app.handle_key_event(press('L'));
    assert_eq!(app.current_page(), 0);
    app.handle_key_event(press('q'));
    assert!(!app.viewing_article());
    assert!(!app.should_exit());
    assert_eq!(app.scroll_offset(), 0);
    app.handle_key_event(press('L'));
    assert_eq!(app.current_page(), 1);
    app.handle_key_event(press('H'));
    assert_eq!(app.current_page(), 0);
    app.handle_key_event(KeyPress { key: Key::Esc, ctrl: false });
    assert!(!app.should_exit());
    app.handle_key_event(press('q'));
    assert!(app.should_exit());
}

#[test]
fn scrolling_saturates() {
    let mut app = App::new(articles(1));
    app.open_article();
    app.scroll_up();
    assert_eq!(app.scroll_offset(), 0);
    for _ in 0..20000 {
        app.scroll_down();
    }
    assert_eq!(app.scroll_offset(), u16::MAX);
    app.exit();
    assert!(app.should_exit());
    assert_eq!(app.articles().len(), 1);
}
