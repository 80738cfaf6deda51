//! Screen and clipboard QR scanning: the decisions behind capture, decode and
//! clipboard dispatch, with the random source reached through a small trusted
//! surface.

pub mod decode;
pub mod dispatch;
pub mod menu;
pub mod raster;

pub use decode::{collect_payloads, is_decodable};
pub use dispatch::{
    clipboard_text, handle_capture, joined_text, plan_dispatch, region_capture_area, CaptureArea,
    Dispatch, Provenance, CLOSE_DELAY_MS, REGION_HEIGHT_PADDING,
};
pub use menu::{menu_action, tray_menu, MenuAction, MenuCommand, OVERLAY_LABEL_LEN};
pub use raster::RgbaRaster;
