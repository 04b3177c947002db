//! Regras de uma corrida arcade: voltas, checkpoints, classificação,
//! câmbio, camadas de colisão, menus e os textos do painel, tudo sobre
//! valores inteiros (tempo em microssegundos, distância em milímetros).

pub mod devtools;
pub mod gearbox;
pub mod hud;
pub mod layers;
pub mod mesh;
pub mod race;
pub mod ranking;
pub mod raster;
pub mod results;
pub mod settings;
pub mod standings;
pub mod states;
pub mod text;
pub mod track;
pub mod vehicle;
