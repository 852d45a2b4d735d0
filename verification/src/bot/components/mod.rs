pub mod button_deny;
pub mod buttons_meta;
pub mod modal_goal;
