pub mod scrollable_modal;
pub mod modal_scrim;
pub mod confirm_dialog;
