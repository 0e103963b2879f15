pub mod controllers;
