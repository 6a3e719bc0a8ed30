//! Diagnostic reporting of what each button would do, for test harnesses.

use vstd::prelude::*;

use crate::buttons::ButtonAction;
use crate::component::Component;
use crate::flow::Flow;
use crate::flow_pages::PageSource;
use crate::show_more::ShowMore;

verus! {

/// Serializes each button's current meaning as a short name.
pub trait ButtonTrace {
    fn get_left_action(&self) -> (s: String) {
        "Prev".to_owned()
    }

    fn get_middle_action(&self) -> (s: String) {
        "Default".to_owned()
    }

    fn get_right_action(&self) -> (s: String) {
        "Next".to_owned()
    }

    /// The three actions, left to right, in easy-to-parse form.
    fn report_btn_actions(&self) -> (v: Vec<String>) {
        let mut v: Vec<String> = Vec::new();
        v.push(self.get_left_action());
        v.push(self.get_middle_action());
        v.push(self.get_right_action());
        v
    }
}

/// A flow reports pagination for a button that the current page would
/// consume, and the page's own action otherwise.
impl<F: PageSource> ButtonTrace for Flow<F> {
    fn get_left_action(&self) -> (s: String) {
        if self.current_page.current_page > 0 {
            ButtonAction::PrevPage.string()
        } else {
            match self.current_page.btn_actions.left {
                Some(a) => a.string(),
                None => ButtonAction::empty(),
            }
        }
    }

    fn get_middle_action(&self) -> (s: String) {
        match self.current_page.btn_actions.middle {
            Some(a) => a.string(),
            None => ButtonAction::empty(),
        }
    }

    fn get_right_action(&self) -> (s: String) {
        let has_next = self.current_page.page_count > 0 && self.current_page.current_page
            < self.current_page.page_count - 1;
        if has_next {
            ButtonAction::NextPage.string()
        } else {
            match self.current_page.btn_actions.right {
                Some(a) => a.string(),
                None => ButtonAction::empty(),
            }
        }
    }
}

impl<T: Component> ButtonTrace for ShowMore<T> {
    fn get_left_action(&self) -> (s: String) {
        "Cancel".to_owned()
    }

    fn get_middle_action(&self) -> (s: String) {
        "Confirm".to_owned()
    }

    fn get_right_action(&self) -> (s: String) {
        "Info".to_owned()
    }
}

} // verus!
