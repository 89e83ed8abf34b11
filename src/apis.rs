//! Values that cross the engine's outward boundary.

use vstd::prelude::*;

use crate::parsers::opt_view;

verus! {

/// A notification ready for the desktop, with the phone's device and the
/// host-side id under which it is shown.
#[derive(Debug, Clone, PartialEq, Eq)]
pub struct ShowNotificationData {
    pub device_name: String,
    pub device_handle: String,
    pub app_id: String,
    pub app_name: String,
    pub id: u32,
    pub title: String,
    pub body: String,
    pub positive_action: Option<String>,
    pub negative_action: Option<String>,
}

pub ghost struct ShowNotificationView {
    pub device_name: Seq<char>,
    pub device_handle: Seq<char>,
    pub app_id: Seq<char>,
    pub app_name: Seq<char>,
    pub id: u32,
    pub title: Seq<char>,
    pub body: Seq<char>,
    pub positive_action: Option<Seq<char>>,
    pub negative_action: Option<Seq<char>>,
}

impl View for ShowNotificationData {
    type V = ShowNotificationView;

    open spec fn view(&self) -> ShowNotificationView {
        ShowNotificationView {
            device_name: self.device_name@,
            device_handle: self.device_handle@,
            app_id: self.app_id@,
            app_name: self.app_name@,
            id: self.id,
            title: self.title@,
            body: self.body@,
            positive_action: opt_view(self.positive_action),
            negative_action: opt_view(self.negative_action),
        }
    }
}

pub fn copy_opt_string(o: &Option<String>) -> (r: Option<String>)
    ensures
        opt_view(r) == opt_view(*o),
{
    match o {
        Some(s) => Some(s.clone()),
        None => None,
    }
}

impl ShowNotificationData {
    /// A copy with the same contents.
    pub fn duplicate(&self) -> (r: ShowNotificationData)
        ensures
            r@ == self@,
    {
        ShowNotificationData {
            device_name: self.device_name.clone(),
            device_handle: self.device_handle.clone(),
            app_id: self.app_id.clone(),
            app_name: self.app_name.clone(),
            id: self.id,
            title: self.title.clone(),
            body: self.body.clone(),
            positive_action: copy_opt_string(&self.positive_action),
            negative_action: copy_opt_string(&self.negative_action),
        }
    }
}

} // verus!
