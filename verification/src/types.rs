//! The control channel's request and response types. One request is fully
//! served per connection; every mutating operation answers with a success
//! flag and an optional human-readable error rather than failing the
//! connection.

use vstd::prelude::*;

verus! {

/// A request type that knows which `Request` variant carries it.
pub trait IntoRequest {
    /// The response type that answers this request.
    type Response;

    /// Wraps this value in its `Request` variant.
    fn into_request(self) -> Request;
}

/// A response type that knows which `Response` variant carries it.
pub trait IntoResponse {
    /// The request type this response answers.
    type Request;

    /// Wraps this value in its `Response` variant.
    fn into_response(self) -> Response;
}

/// Asks whether the server is alive.
#[derive(Debug)]
pub struct Checkhealth;

/// Answers a liveness check.
#[derive(Debug)]
pub struct Health(pub bool);

/// Asks the server to load a wallpaper from a filesystem path into the
/// active set without necessarily displaying it.
#[derive(Debug)]
pub struct LoadWallpaper {
    /// Path of the wallpaper directory to load.
    pub path: String,
}

/// Reports whether a wallpaper was loaded.
#[derive(Debug)]
pub struct WallpaperLoaded {
    /// Name of the loaded wallpaper.
    pub name: String,
    /// Whether the wallpaper was loaded successfully.
    pub success: bool,
    /// Error message if loading failed.
    pub error: Option<String>,
}

/// Asks for the currently active wallpaper.
#[derive(Debug)]
pub struct GetCurrentWallpaper;

/// Reports the currently active wallpaper, if any.
#[derive(Debug)]
pub struct CurrentWallpaper {
    /// Name of the current wallpaper, if any is set.
    pub name: Option<String>,
    /// Path to the current wallpaper, if any is set.
    pub path: Option<String>,
}

/// Asks for every installed wallpaper.
#[derive(Debug)]
pub struct ListWallpapers;

/// Reports every installed wallpaper.
#[derive(Debug)]
pub struct WallpaperList {
    /// The installed wallpapers.
    pub wallpapers: Vec<WallpaperInfo>,
}

/// One installed wallpaper: its name and where it lives.
#[derive(Debug)]
pub struct WallpaperInfo {
    /// Name of the wallpaper.
    pub name: String,
    /// Path to the wallpaper directory.
    pub path: String,
}

impl Clone for WallpaperInfo {
    /// A wallpaper entry clones to an equal entry.
    fn clone(&self) -> (res: Self)
        ensures
            res == *self,
    {
        WallpaperInfo { name: self.name.clone(), path: self.path.clone() }
    }
}

/// Asks the server to install a wallpaper from a source directory into the
/// managed install directory, optionally under a custom name.
#[derive(Debug)]
pub struct InstallWallpaper {
    /// Path of the directory holding the wallpaper files and manifest.
    pub path: String,
    /// Custom name; the directory name is used when absent.
    pub name: Option<String>,
}

/// Reports whether a wallpaper was installed.
#[derive(Debug)]
pub struct WallpaperInstalled {
    /// Name of the installed wallpaper.
    pub name: String,
    /// Whether the installation succeeded.
    pub success: bool,
    /// Error message if installation failed.
    pub error: Option<String>,
}

/// Asks the server to show a wallpaper, on one named display or on all.
#[derive(Debug)]
pub struct SetCurrentWallpaper {
    /// Name of the wallpaper to show.
    pub name: String,
    /// The display to change; all displays when absent.
    pub monitor: Option<String>,
}

/// Reports whether the wallpaper was set.
#[derive(Debug)]
pub struct WallpaperSet {
    /// Name of the wallpaper that was requested.
    pub name: String,
    /// Whether the wallpaper was set successfully.
    pub success: bool,
    /// Error message if setting the wallpaper failed.
    pub error: Option<String>,
}

/// Asks the server to shut down gracefully.
#[derive(Debug)]
pub struct StopServer;

/// Reports that the server is shutting down.
#[derive(Debug)]
pub struct ServerStopping {
    /// Whether the shutdown was initiated.
    pub success: bool,
}

/// Asks which wallpaper every active display shows.
#[derive(Debug)]
pub struct QueryActiveWallpapers;

/// One active display: the wallpaper it shows and its pixel size.
#[derive(Debug)]
pub struct ActiveWallpaperInfo {
    /// Name of the wallpaper.
    pub name: String,
    /// Name of the output the wallpaper is shown on.
    pub output_name: String,
    /// Width of the display in pixels.
    pub width: u32,
    /// Height of the display in pixels.
    pub height: u32,
}

/// Reports every active display's wallpaper.
#[derive(Debug)]
pub struct ActiveWallpaperList {
    /// The active displays and their wallpapers.
    pub wallpapers: Vec<ActiveWallpaperInfo>,
    /// Whether the query succeeded.
    pub success: bool,
    /// Error message if the query failed.
    pub error: Option<String>,
}

/// Every request the control channel accepts.
#[derive(Debug)]
pub enum Request {
    Checkhealth(Checkhealth),
    LoadWallpaper(LoadWallpaper),
    GetCurrentWallpaper(GetCurrentWallpaper),
    ListWallpapers(ListWallpapers),
    InstallWallpaper(InstallWallpaper),
    SetCurrentWallpaper(SetCurrentWallpaper),
    StopServer(StopServer),
    QueryActiveWallpapers(QueryActiveWallpapers),
}

/// Every response the control channel can answer with, one per request.
#[derive(Debug)]
pub enum Response {
    Health(Health),
    WallpaperLoaded(WallpaperLoaded),
    CurrentWallpaper(CurrentWallpaper),
    WallpaperList(WallpaperList),
    WallpaperInstalled(WallpaperInstalled),
    WallpaperSet(WallpaperSet),
    ServerStopping(ServerStopping),
    ActiveWallpaperList(ActiveWallpaperList),
}

impl IntoRequest for Checkhealth {
    type Response = Health;

    fn into_request(self) -> (r: Request)
        ensures
            r is Checkhealth,
    {
        Request::Checkhealth(self)
    }
}

impl IntoResponse for Health {
    type Request = Checkhealth;

    fn into_response(self) -> (r: Response)
        ensures
            r matches Response::Health(h) && h == self,
    {
        Response::Health(self)
    }
}

impl IntoRequest for LoadWallpaper {
    type Response = WallpaperLoaded;

    fn into_request(self) -> (r: Request)
        ensures
            r matches Request::LoadWallpaper(q) && q == self,
    {
        Request::LoadWallpaper(self)
    }
}

impl IntoResponse for WallpaperLoaded {
    type Request = LoadWallpaper;

    fn into_response(self) -> (r: Response)
        ensures
            r matches Response::WallpaperLoaded(p) && p == self,
    {
        Response::WallpaperLoaded(self)
    }
}

impl IntoRequest for GetCurrentWallpaper {
    type Response = CurrentWallpaper;

    fn into_request(self) -> (r: Request)
        ensures
            r is GetCurrentWallpaper,
    {
        Request::GetCurrentWallpaper(self)
    }
}

impl IntoResponse for CurrentWallpaper {
    type Request = GetCurrentWallpaper;

    fn into_response(self) -> (r: Response)
        ensures
            r matches Response::CurrentWallpaper(p) && p == self,
    {
        Response::CurrentWallpaper(self)
    }
}

impl IntoRequest for ListWallpapers {
    type Response = WallpaperList;

    fn into_request(self) -> (r: Request)
        ensures
            r is ListWallpapers,
    {
        Request::ListWallpapers(self)
    }
}

impl IntoResponse for WallpaperList {
    type Request = ListWallpapers;

    fn into_response(self) -> (r: Response)
        ensures
            r matches Response::WallpaperList(p) && p == self,
    {
        Response::WallpaperList(self)
    }
}

impl IntoRequest for InstallWallpaper {
    type Response = WallpaperInstalled;

    fn into_request(self) -> (r: Request)
        ensures
            r matches Request::InstallWallpaper(q) && q == self,
    {
        Request::InstallWallpaper(self)
    }
}

impl IntoResponse for WallpaperInstalled {
    type Request = InstallWallpaper;

    fn into_response(self) -> (r: Response)
        ensures
            r matches Response::WallpaperInstalled(p) && p == self,
    {
        Response::WallpaperInstalled(self)
    }
}

impl IntoRequest for SetCurrentWallpaper {
    type Response = WallpaperSet;

    fn into_request(self) -> (r: Request)
        ensures
            r matches Request::SetCurrentWallpaper(q) && q == self,
    {
        Request::SetCurrentWallpaper(self)
    }
}

impl IntoResponse for WallpaperSet {
    type Request = SetCurrentWallpaper;

    fn into_response(self) -> (r: Response)
        ensures
            r matches Response::WallpaperSet(p) && p == self,
    {
        Response::WallpaperSet(self)
    }
}

impl IntoRequest for StopServer {
    type Response = ServerStopping;

    fn into_request(self) -> (r: Request)
        ensures
            r is StopServer,
    {
        Request::StopServer(self)
    }
}

impl IntoResponse for ServerStopping {
    type Request = StopServer;

    fn into_response(self) -> (r: Response)
        ensures
            r matches Response::ServerStopping(p) && p == self,
    {
        Response::ServerStopping(self)
    }
}

impl IntoRequest for QueryActiveWallpapers {
    type Response = ActiveWallpaperList;

    fn into_request(self) -> (r: Request)
        ensures
            r is QueryActiveWallpapers,
    {
        Request::QueryActiveWallpapers(self)
    }
}

impl IntoResponse for ActiveWallpaperList {
    type Request = QueryActiveWallpapers;

    fn into_response(self) -> (r: Response)
        ensures
            r matches Response::ActiveWallpaperList(p) && p == self,
    {
        Response::ActiveWallpaperList(self)
    }
}

} // verus!
