//! Barcode-likelihood scanning over a grayscale image.
//!
//! The library scans a large grayscale raster with an overlapping sliding
//! window and, for each window, estimates the probability that the window
//! holds a barcode-like pattern: many near-parallel straight edges at a
//! similar orientation.  The verified core is the window iteration, the
//! median-angle computation, the angle-clustering probability heuristic and
//! the per-tile accept/reject decision.  Edge detection and straight-line
//! detection are outside collaborators reached through trusted wrappers;
//! rendering and persistence of accepted tiles are left to the caller.

pub mod cluster;
pub mod config;
pub mod imaging;
pub mod median;
pub mod scan;
pub mod sorting;
pub mod verdict;
pub mod window;
