//! User settings: non-sensitive, stored as a plaintext file by the shell
//! around the library.

use vstd::prelude::*;

verus! {

/// Application settings with their defaults. The device name defaults to
/// the empty string; the shell fills in the host name on first run.
pub struct AppSettings {
    pub device_name: String,
    pub auto_sync_enabled: bool,
    /// Bound of the clipboard history (entries).
    pub clipboard_history_limit: usize,
    /// Whether history is persisted to the vault across restarts.
    pub keep_history: bool,
    pub show_notifications: bool,
    pub clipboard_poll_interval_ms: u64,
    /// The chosen vault authentication method, if configured.
    pub auth_method: Option<String>,
    /// Bound of each peer's offline buffer (messages).
    pub sync_max_buffer_size: usize,
    /// Time-to-live of buffered messages, in milliseconds.
    pub sync_ttl_ms: i64,
}

impl AppSettings {
    /// Settings the library can work with: the bounds are at least one.
    pub open spec fn wf(&self) -> bool {
        &&& self.clipboard_history_limit >= 1
        &&& self.sync_max_buffer_size >= 1
    }
}

impl Default for AppSettings {
    /// The defaults: sync on, 50 history entries kept, notifications on,
    /// a 500 ms poll, a 16-message offline buffer with a 5-minute
    /// time-to-live, and no device name or auth method chosen yet.
    fn default() -> (r: Self)
        ensures
            r.device_name@.len() == 0,
            r.auto_sync_enabled == true,
            r.clipboard_history_limit == 50,
            r.keep_history == true,
            r.show_notifications == true,
            r.clipboard_poll_interval_ms == 500,
            r.auth_method is None,
            r.sync_max_buffer_size == crate::buffers::SYNC_MAX_BUFFER_SIZE,
            r.sync_ttl_ms == crate::buffers::SYNC_TTL_MS,
            r.wf(),
    {
        AppSettings {
            device_name: String::new(),
            auto_sync_enabled: true,
            clipboard_history_limit: 50,
            keep_history: true,
            show_notifications: true,
            clipboard_poll_interval_ms: 500,
            auth_method: None,
            sync_max_buffer_size: crate::buffers::SYNC_MAX_BUFFER_SIZE,
            sync_ttl_ms: crate::buffers::SYNC_TTL_MS,
        }
    }
}

impl Clone for AppSettings {
    /// A copy with the same values.
    fn clone(&self) -> (r: Self)
        ensures
            r.device_name@ == self.device_name@,
            r.auto_sync_enabled == self.auto_sync_enabled,
            r.clipboard_history_limit == self.clipboard_history_limit,
            r.keep_history == self.keep_history,
            r.show_notifications == self.show_notifications,
            r.clipboard_poll_interval_ms == self.clipboard_poll_interval_ms,
            (r.auth_method is Some <==> self.auth_method is Some),
            r.auth_method matches Some(a) ==> (self.auth_method matches Some(b) && a@ == b@),
            r.sync_max_buffer_size == self.sync_max_buffer_size,
            r.sync_ttl_ms == self.sync_ttl_ms,
            self.wf() ==> r.wf(),
    {
        AppSettings {
            device_name: self.device_name.clone(),
            auto_sync_enabled: self.auto_sync_enabled,
            clipboard_history_limit: self.clipboard_history_limit,
            keep_history: self.keep_history,
            show_notifications: self.show_notifications,
            clipboard_poll_interval_ms: self.clipboard_poll_interval_ms,
            auth_method: match &self.auth_method {
                Some(a) => Some(a.clone()),
                None => None,
            },
            sync_max_buffer_size: self.sync_max_buffer_size,
            sync_ttl_ms: self.sync_ttl_ms,
        }
    }
}

/// Replace the settings with `update`, reporting whether the device name
/// changed (a change is announced to peers).
pub fn apply_settings_update(settings: &mut AppSettings, update: AppSettings) -> (r: bool)
    ensures
        r == (old(settings).device_name@ != update.device_name@),
        *final(settings) == update,
{
    let name_changed = !crate::text::str_eq(
        settings.device_name.as_str(),
        update.device_name.as_str(),
    );
    *settings = update;
    name_changed
}

} // verus!
