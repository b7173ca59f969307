pub mod picture_funcs;
