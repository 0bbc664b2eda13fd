//! Simulation of a road crossing where two perpendicular one-way lanes meet.
//!
//! Vehicles and the controller never touch each other's state: they exchange
//! messages through [`comunicacao::Comunicacao`]. [`transito::Transito`] owns the
//! vehicles of both lanes and advances them tick by tick;
//! [`controlador::Controle`] keeps its own picture of every vehicle it has heard
//! of and runs a strategy that chooses an acceleration for each one.
//!
//! All quantities are integers in fixed units: positions and lengths in
//! micrometres, velocities in micrometres per second, accelerations in
//! micrometres per second squared and times in milliseconds. Divisions round
//! towards minus infinity.
pub mod aritmetica;
pub mod comunicacao;
pub mod controlador;
pub mod simulacao;
pub mod transito;
