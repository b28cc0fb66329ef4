pub mod gamepad;
pub mod inp_frame;
