use vstd::prelude::*;
use crate::model::Article;

verus! {

/// Articles on the front page: one large panel above two side by side.
pub const FRONT_SLOTS: usize = 3;

/// Articles on every later page: a 2x2 grid.
pub const PAGE_SLOTS: usize = 4;

/// Lines moved by one scroll step in the reading view.
pub const SCROLL_STEP: u16 = 5;

/// A key of the terminal, as far as the display client tells keys apart.
#[derive(Clone, Copy, Debug, PartialEq, Eq, Structural)]
pub enum Key {
    Char(char),
    Esc,
    Enter,
    Other,
}

/// One key press, with whether Control was held.
#[derive(Clone, Copy, Debug, PartialEq, Eq, Structural)]
pub struct KeyPress {
    pub key: Key,
    pub ctrl: bool,
}

pub ghost struct AppView {
    pub articles: Seq<Article>,
    pub current_page: nat,
    /// Panel selected on the current page, in reading order.
    pub selected_index: nat,
    pub viewing_article: bool,
    pub scroll_offset: u16,
    pub exit: bool,
}

/// Index of the last page for `len` articles.
pub open spec fn last_page(len: nat) -> nat {
    if len <= 3 {
        0
    } else {
        1 + ((len - 4) as nat) / 4
    }
}

/// Panels on page `page`.
pub open spec fn slots(page: nat) -> nat {
    if page == 0 {
        3
    } else {
        4
    }
}

/// Position in the article list of panel `sel` of page `page`.
pub open spec fn article_index(page: nat, sel: nat) -> nat {
    if page == 0 {
        sel
    } else {
        3 + (page - 1) as nat * 4 + sel
    }
}

pub open spec fn left_of(page: nat, sel: nat) -> nat {
    if page == 0 {
        if sel == 2 { 1 } else { sel }
    } else if sel == 1 {
        0
    } else if sel == 3 {
        2
    } else {
        sel
    }
}

pub open spec fn right_of(page: nat, sel: nat) -> nat {
    if page == 0 {
        if sel == 1 { 2 } else { sel }
    } else if sel == 0 {
        1
    } else if sel == 2 {
        3
    } else {
        sel
    }
}

pub open spec fn above(page: nat, sel: nat) -> nat {
    if page == 0 {
        if sel == 1 || sel == 2 { 0 } else { sel }
    } else if sel == 2 {
        0
    } else if sel == 3 {
        1
    } else {
        sel
    }
}

pub open spec fn below(page: nat, sel: nat) -> nat {
    if page == 0 {
        if sel == 0 { 1 } else { sel }
    } else if sel == 0 {
        2
    } else if sel == 1 {
        3
    } else {
        sel
    }
}

/// The state after the key press `k`. While reading, Esc or `q` go back,
/// Control-d and Control-u scroll; otherwise `q` quits, `H`/`L` turn pages,
/// `h`/`j`/`k`/`l` move the selection and Enter opens the selected article.
pub open spec fn after_key(v: AppView, k: KeyPress) -> AppView {
    if v.viewing_article {
        if k.key == Key::Esc || k.key == Key::Char('q') {
            AppView { viewing_article: false, scroll_offset: 0, ..v }
        } else if k.key == Key::Char('d') && k.ctrl {
            AppView { scroll_offset: v.scroll_offset.saturating_add(5), ..v }
        } else if k.key == Key::Char('u') && k.ctrl {
            AppView { scroll_offset: v.scroll_offset.saturating_sub(5), ..v }
        } else {
            v
        }
    } else {
        match k.key {
            Key::Char('q') => AppView { exit: true, ..v },
            Key::Char('L') => if v.current_page < last_page(v.articles.len()) {
                AppView { current_page: v.current_page + 1, selected_index: 0, ..v }
            } else {
                v
            },
            Key::Char('H') => if v.current_page > 0 {
                AppView { current_page: (v.current_page - 1) as nat, selected_index: 0, ..v }
            } else {
                v
            },
            Key::Char('h') => AppView { selected_index: left_of(v.current_page, v.selected_index), ..v },
            Key::Char('j') => AppView { selected_index: below(v.current_page, v.selected_index), ..v },
            Key::Char('k') => AppView { selected_index: above(v.current_page, v.selected_index), ..v },
            Key::Char('l') => AppView {
                selected_index: right_of(v.current_page, v.selected_index),
                ..v
            },
            Key::Enter => AppView { viewing_article: true, scroll_offset: 0, ..v },
            _ => v,
        }
    }
}

/// Navigation state of the display client: the articles, the page shown,
/// the selected panel, and whether one article is open for reading.
pub struct App {
    articles: Vec<Article>,
    current_page: usize,
    selected_index: usize,
    viewing_article: bool,
    scroll_offset: u16,
    exit: bool,
}

impl View for App {
    type V = AppView;

    closed spec fn view(&self) -> AppView {
        AppView {
            articles: self.articles@,
            current_page: self.current_page as nat,
            selected_index: self.selected_index as nat,
            viewing_article: self.viewing_article,
            scroll_offset: self.scroll_offset,
            exit: self.exit,
        }
    }
}

pub open spec fn app_wf(v: AppView) -> bool {
    &&& v.current_page <= last_page(v.articles.len())
    &&& v.selected_index < slots(v.current_page)
    &&& v.articles.len() + 3 <= usize::MAX
}

impl App {
    pub open spec fn wf(&self) -> bool {
        app_wf(self@)
    }

    /// The front page of `articles`, first panel selected.
    pub fn new(articles: Vec<Article>) -> (r: App)
        requires
            articles.len() + 3 <= usize::MAX,
        ensures
            r.wf(),
            r@ == (AppView {
                articles: articles@,
                current_page: 0,
                selected_index: 0,
                viewing_article: false,
                scroll_offset: 0,
                exit: false,
            }),
    {
        App {
            articles,
            current_page: 0,
            selected_index: 0,
            viewing_article: false,
            scroll_offset: 0,
            exit: false,
        }
    }

    /// Index of the last page.
    pub fn max_page(&self) -> (r: usize)
        ensures
            r == last_page(self@.articles.len()),
    {
        if self.articles.len() <= FRONT_SLOTS {
            0
        } else {
            1 + (self.articles.len() - FRONT_SLOTS).saturating_sub(1) / PAGE_SLOTS
        }
    }

    /// Position in the article list of the selected panel (past the end
    /// when the panel is empty).
    pub fn get_selected_article_index(&self) -> (r: usize)
        requires
            self.wf(),
        ensures
            r == article_index(self@.current_page, self@.selected_index),
    {
        if self.current_page == 0 {
            self.selected_index
        } else {
            let len = self.articles.len();
            let p = self.current_page;
            assert((p - 1) * 4 + 4 <= len) by (nonlinear_arith)
                requires
                    1 <= p <= 1 + (len - 4) / 4,
                    len > 3,
            ;
            FRONT_SLOTS + (self.current_page - 1) * PAGE_SLOTS + self.selected_index
        }
    }

    /// The article of the selected panel, if that panel holds one.
    pub fn selected_article(&self) -> (r: Option<&Article>)
        requires
            self.wf(),
        ensures
            ({
                let i = article_index(self@.current_page, self@.selected_index);
                if i < self@.articles.len() {
                    r == Some(&self@.articles[i as int])
                } else {
                    r is None
                }
            }),
    {
        let i = self.get_selected_article_index();
        if i < self.articles.len() {
            Some(&self.articles[i])
        } else {
            None
        }
    }

    pub fn exit(&mut self)
        ensures
            final(self)@ == (AppView { exit: true, ..old(self)@ }),
    {
        self.exit = true;
    }

    pub fn open_article(&mut self)
        ensures
            final(self)@ == (AppView { viewing_article: true, scroll_offset: 0, ..old(self)@ }),
    {
        self.viewing_article = true;
        self.scroll_offset = 0;
    }

    fn close_article(&mut self)
        ensures
            final(self)@ == (AppView { viewing_article: false, scroll_offset: 0, ..old(self)@ }),
    {
        self.viewing_article = false;
        self.scroll_offset = 0;
    }

    pub fn scroll_down(&mut self)
        ensures
            final(self)@ == (AppView {
                scroll_offset: old(self)@.scroll_offset.saturating_add(5),
                ..old(self)@
            }),
    {
        self.scroll_offset = self.scroll_offset.saturating_add(SCROLL_STEP);
    }

    pub fn scroll_up(&mut self)
        ensures
            final(self)@ == (AppView {
                scroll_offset: old(self)@.scroll_offset.saturating_sub(5),
                ..old(self)@
            }),
    {
        self.scroll_offset = self.scroll_offset.saturating_sub(SCROLL_STEP);
    }

    pub fn move_left(&mut self)
        requires
            old(self).wf(),
        ensures
            final(self).wf(),
            final(self)@ == (AppView {
                selected_index: left_of(old(self)@.current_page, old(self)@.selected_index),
                ..old(self)@
            }),
    {
        if self.current_page == 0 {
            if self.selected_index == 2 {
                self.selected_index = 1;
            }
        } else {
            if self.selected_index == 1 {
                self.selected_index = 0;
            } else if self.selected_index == 3 {
                self.selected_index = 2;
            }
        }
    }

    pub fn move_right(&mut self)
        requires
            old(self).wf(),
        ensures
            final(self).wf(),
            final(self)@ == (AppView {
                selected_index: right_of(old(self)@.current_page, old(self)@.selected_index),
                ..old(self)@
            }),
    {
        if self.current_page == 0 {
            if self.selected_index == 1 {
                self.selected_index = 2;
            }
        } else if self.selected_index == 0 {
            self.selected_index = 1;
        } else if self.selected_index == 2 {
            self.selected_index = 3;
        }
    }

    pub fn move_up(&mut self)
        requires
            old(self).wf(),
        ensures
            final(self).wf(),
            final(self)@ == (AppView {
                selected_index: above(old(self)@.current_page, old(self)@.selected_index),
                ..old(self)@
            }),
    {
        if self.current_page == 0 {
            if self.selected_index == 1 || self.selected_index == 2 {
                self.selected_index = 0;
            }
        } else if self.selected_index == 2 {
            self.selected_index = 0;
        } else if self.selected_index == 3 {
            self.selected_index = 1;
        }
    }

    pub fn move_down(&mut self)
        requires
            old(self).wf(),
        ensures
            final(self).wf(),
            final(self)@ == (AppView {
                selected_index: below(old(self)@.current_page, old(self)@.selected_index),
                ..old(self)@
            }),
    {
        if self.current_page == 0 {
            if self.selected_index == 0 {
                self.selected_index = 1;
            }
        } else if self.selected_index == 0 {
            self.selected_index = 2;
        } else if self.selected_index == 1 {
            self.selected_index = 3;
        }
    }

    /// Turns to the next page, if there is one, selecting its first panel.
    pub fn next_page(&mut self)
        requires
            old(self).wf(),
        ensures
            final(self).wf(),
            final(self)@ == (if old(self)@.current_page < last_page(old(self)@.articles.len()) {
                AppView { current_page: old(self)@.current_page + 1, selected_index: 0, ..old(self)@ }
            } else {
                old(self)@
            }),
    {
        let max_page = self.max_page();
        if self.current_page < max_page {
            self.current_page = self.current_page + 1;
            self.selected_index = 0;
        }
    }

    /// Turns to the previous page, if there is one, selecting its first panel.
    pub fn prev_page(&mut self)
        requires
            old(self).wf(),
        ensures
            final(self).wf(),
            final(self)@ == (if old(self)@.current_page > 0 {
                AppView {
                    current_page: (old(self)@.current_page - 1) as nat,
                    selected_index: 0,
                    ..old(self)@
                }
            } else {
                old(self)@
            }),
    {
        if self.current_page > 0 {
            self.current_page = self.current_page - 1;
            self.selected_index = 0;
        }
    }

    /// Applies one key press.
    pub fn handle_key_event(&mut self, k: KeyPress)
        requires
            old(self).wf(),
        ensures
            final(self).wf(),
            final(self)@ == after_key(old(self)@, k),
    {
        if self.viewing_article {
            if k.key == Key::Esc || k.key == Key::Char('q') {
                self.close_article();
            } else if k.key == Key::Char('d') && k.ctrl {
                self.scroll_down();
            } else if k.key == Key::Char('u') && k.ctrl {
                self.scroll_up();
            }
        } else {
            match k.key {
                Key::Char('q') => self.exit(),
                Key::Char('L') => self.next_page(),
                Key::Char('H') => self.prev_page(),
                Key::Char('h') => self.move_left(),
                Key::Char('j') => self.move_down(),
                Key::Char('k') => self.move_up(),
                Key::Char('l') => self.move_right(),
                Key::Enter => self.open_article(),
                _ => {},
            }
        }
    }

    pub fn articles(&self) -> (r: &Vec<Article>)
        ensures
            r@ == self@.articles,
    {
        &self.articles
    }

    pub fn current_page(&self) -> (r: usize)
        ensures
            r == self@.current_page,
    {
        self.current_page
    }

    pub fn selected_index(&self) -> (r: usize)
        ensures
            r == self@.selected_index,
    {
        self.selected_index
    }

    pub fn viewing_article(&self) -> (r: bool)
        ensures
            r == self@.viewing_article,
    {
        self.viewing_article
    }

    pub fn scroll_offset(&self) -> (r: u16)
        ensures
            r == self@.scroll_offset,
    {
        self.scroll_offset
    }

    pub fn should_exit(&self) -> (r: bool)
        ensures
            r == self@.exit,
    {
        self.exit
    }
}

/// Whatever keys are pressed, the page shown stays within the article list
/// and the selected panel within that page.
pub proof fn lemma_keys_keep_state_valid(v: AppView, k: KeyPress)
    requires
        app_wf(v),
    ensures
        app_wf(after_key(v, k)),
{
}

} // verus!
