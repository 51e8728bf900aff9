//! Dialogs the UI process shows for the compositor: their buttons, in order, which one is the
//! default, and which action is reported when the user answers or closes the dialog.

use vstd::prelude::*;

verus! {

/// A dialog button: its label and the action reported when it is clicked.
pub struct DialogButton {
    pub text: String,
    pub action_id: String,
}

pub struct DialogButtonView {
    pub text: Seq<char>,
    pub action_id: Seq<char>,
}

impl View for DialogButton {
    type V = DialogButtonView;

    open spec fn view(&self) -> DialogButtonView {
        DialogButtonView { text: self.text@, action_id: self.action_id@ }
    }
}

/// What a dialog shows.
pub struct DialogConfig {
    pub title: String,
    pub primary_text: Option<String>,
    pub secondary_text: Option<String>,
    pub icon_name: Option<String>,
    pub cancel_button: DialogButton,
    pub additional_buttons: Vec<DialogButton>,
}

pub open spec fn buttons_view(s: Seq<DialogButton>) -> Seq<DialogButtonView> {
    s.map_values(|b: DialogButton| b@)
}

/// The icon the dialog window uses: the configured one, else `dialog-info`.
pub open spec fn spec_window_icon_name(icon_name: Option<Seq<char>>) -> Seq<char> {
    match icon_name {
        Some(n) => n,
        None => "dialog-info"@,
    }
}

fn copy_str(s: &String) -> (r: String)
    ensures
        r@ == s@,
{
    s.clone()
}

impl DialogConfig {
    /// The buttons in the order they are laid out: the cancel button, then the others.  The
    /// last is the default.
    pub fn buttons(&self) -> (r: Vec<DialogButton>)
        ensures
            buttons_view(r@) == seq![self.cancel_button@] + buttons_view(self.additional_buttons@),
    {
        let mut r: Vec<DialogButton> = Vec::new();
        r.push(DialogButton { text: copy_str(&self.cancel_button.text), action_id: copy_str(&self.cancel_button.action_id) });
        let mut i: usize = 0;
        while i < self.additional_buttons.len()
            invariant
                0 <= i <= self.additional_buttons@.len(),
                buttons_view(r@) =~= seq![self.cancel_button@] + buttons_view(self.additional_buttons@.subrange(0, i as int)),
            decreases self.additional_buttons@.len() - i,
        {
            let b = &self.additional_buttons[i];
            let ghost r0 = buttons_view(r@);
            r.push(DialogButton { text: copy_str(&b.text), action_id: copy_str(&b.action_id) });
            proof {
                assert(buttons_view(r@) =~= r0.push(self.additional_buttons@[i as int]@));
                assert(buttons_view(self.additional_buttons@.subrange(0, i as int + 1)) =~= buttons_view(
                    self.additional_buttons@.subrange(0, i as int),
                ).push(self.additional_buttons@[i as int]@));
            }
            i = i + 1;
        }
        assert(self.additional_buttons@.subrange(0, self.additional_buttons@.len() as int) =~= self.additional_buttons@);
        r
    }

    /// The index of the default button: the last one laid out.
    pub fn default_button(&self) -> (r: usize)
        requires
            self.additional_buttons@.len() < usize::MAX,
        ensures
            r == self.additional_buttons@.len(),
    {
        self.additional_buttons.len()
    }

    /// The icon the dialog window uses.
    pub fn window_icon_name(&self) -> (r: String)
        ensures
            r@ == spec_window_icon_name(crate::util::ov(self.icon_name)),
    {
        match &self.icon_name {
            Some(n) => n.clone(),
            None => {
                let d = "dialog-info";
                d.to_owned()
            },
        }
    }
}

/// Which actions a dialog has still to report.  Each button reports its action the first time
/// it is clicked; closing the window reports the cancel action, unless a button was clicked
/// before or the window was closed before.
pub struct DialogAnswer {
    pub button_sent: Vec<bool>,
    pub close_reports_cancel: bool,
}

impl DialogAnswer {
    /// A dialog with `buttons` buttons, nothing reported yet.
    pub fn new(buttons: usize) -> (r: DialogAnswer)
        ensures
            r.button_sent@.len() == buttons,
            forall|i: int| 0 <= i < buttons ==> !r.button_sent@[i],
            r.close_reports_cancel,
    {
        let mut v: Vec<bool> = Vec::new();
        let mut i: usize = 0;
        while i < buttons
            invariant
                0 <= i <= buttons,
                v@.len() == i,
                forall|k: int| 0 <= k < i ==> !v@[k],
            decreases buttons - i,
        {
            v.push(false);
            i = i + 1;
        }
        DialogAnswer { button_sent: v, close_reports_cancel: true }
    }

    /// Button `button` was clicked; says whether its action is reported.  Closing the window
    /// reports nothing afterwards.
    pub fn clicked(&mut self, button: usize) -> (r: bool)
        requires
            button < old(self).button_sent@.len(),
        ensures
            r == !old(self).button_sent@[button as int],
            final(self).button_sent@ == old(self).button_sent@.update(button as int, true),
            !final(self).close_reports_cancel,
    {
        self.close_reports_cancel = false;
        if self.button_sent[button] {
            false
        } else {
            self.button_sent.set(button, true);
            true
        }
    }

    /// The window was closed; says whether the cancel action is reported.
    pub fn closed(&mut self) -> (r: bool)
        ensures
            r == old(self).close_reports_cancel,
            !final(self).close_reports_cancel,
            final(self).button_sent@ == old(self).button_sent@,
    {
        let r = self.close_reports_cancel;
        self.close_reports_cancel = false;
        r
    }
}

} // verus!
