pub mod decimal;
pub mod musics;
pub mod replies;
pub mod text;
